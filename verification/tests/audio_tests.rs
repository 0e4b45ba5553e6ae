use media_viewer::audio::{AudioAction, AudioApp, Clicks, Command, PlaybackState};

fn clicks(play: bool, pause: bool, resume: bool, stop: bool) -> Clicks {
    Clicks { play, pause, resume, stop }
}

#[test]
fn new_window_is_idle() {
    let app = AudioApp::new("song.flac".to_string());
    assert_eq!(app.playback_state(), PlaybackState::Idle);
    assert_eq!(app.active_sessions(), 0);
    assert!(!app.is_playing());
    assert_eq!(app.file_path(), "song.flac");
}

#[test]
fn play_from_idle_opens_a_session() {
    let mut app = AudioApp::new("song.mp3".to_string());
    assert_eq!(app.play(), Some(AudioAction::OpenSession));
    assert_eq!(app.playback_state(), PlaybackState::Playing);
    assert_eq!(app.active_sessions(), 1);
    assert!(app.is_playing());
}

#[test]
fn play_while_playing_is_a_no_op() {
    let mut app = AudioApp::new("song.mp3".to_string());
    app.play();
    assert_eq!(app.play(), None);
    assert_eq!(app.playback_state(), PlaybackState::Playing);
    assert_eq!(app.active_sessions(), 1);
}

#[test]
fn play_while_paused_is_a_no_op() {
    let mut app = AudioApp::new("song.mp3".to_string());
    app.play();
    app.pause();
    assert_eq!(app.play(), None);
    assert_eq!(app.playback_state(), PlaybackState::Paused);
    assert_eq!(app.active_sessions(), 1);
}

#[test]
fn stop_releases_the_session() {
    let mut app = AudioApp::new("song.mp3".to_string());
    app.play();
    assert_eq!(app.stop(), Some(AudioAction::CloseSession));
    assert_eq!(app.playback_state(), PlaybackState::Idle);
    assert_eq!(app.active_sessions(), 0);
    assert!(!app.is_playing());
}

#[test]
fn stop_when_idle_asks_for_nothing() {
    let mut app = AudioApp::new("song.mp3".to_string());
    assert_eq!(app.stop(), None);
    assert_eq!(app.playback_state(), PlaybackState::Idle);
}

#[test]
fn pause_and_resume_without_session_are_no_ops() {
    let mut app = AudioApp::new("song.mp3".to_string());
    assert_eq!(app.pause(), None);
    assert_eq!(app.playback_state(), PlaybackState::Idle);
    assert_eq!(app.resume(), None);
    assert_eq!(app.playback_state(), PlaybackState::Idle);
    assert_eq!(app.active_sessions(), 0);
}

#[test]
fn pause_and_resume_act_on_the_sink() {
    let mut app = AudioApp::new("song.mp3".to_string());
    app.play();
    assert_eq!(app.pause(), Some(AudioAction::PauseSink));
    assert_eq!(app.playback_state(), PlaybackState::Paused);
    assert_eq!(app.active_sessions(), 1);
    assert_eq!(app.resume(), Some(AudioAction::ResumeSink));
    assert_eq!(app.playback_state(), PlaybackState::Playing);
    assert_eq!(app.active_sessions(), 1);
}

#[test]
fn play_after_stop_opens_a_new_session() {
    let mut app = AudioApp::new("song.mp3".to_string());
    assert_eq!(app.play(), Some(AudioAction::OpenSession));
    assert_eq!(app.stop(), Some(AudioAction::CloseSession));
    assert_eq!(app.play(), Some(AudioAction::OpenSession));
    assert_eq!(app.active_sessions(), 1);
}

#[test]
fn stop_from_paused_releases_the_session() {
    let mut app = AudioApp::new("song.mp3".to_string());
    app.play();
    app.pause();
    assert_eq!(app.stop(), Some(AudioAction::CloseSession));
    assert_eq!(app.playback_state(), PlaybackState::Idle);
}

#[test]
fn apply_carries_out_each_command() {
    let mut app = AudioApp::new("song.mp3".to_string());
    assert_eq!(app.apply(Command::Pause), None);
    assert_eq!(app.apply(Command::Play), Some(AudioAction::OpenSession));
    assert_eq!(app.apply(Command::Pause), Some(AudioAction::PauseSink));
    assert_eq!(app.apply(Command::Resume), Some(AudioAction::ResumeSink));
    assert_eq!(app.apply(Command::Stop), Some(AudioAction::CloseSession));
    assert_eq!(app.apply(Command::Resume), None);
    assert_eq!(app.playback_state(), PlaybackState::Idle);
    assert_eq!(app.file_path(), "song.mp3");
}

#[test]
fn frame_without_clicks_changes_nothing() {
    let mut app = AudioApp::new("song.mp3".to_string());
    assert_eq!(app.update(clicks(false, false, false, false)), vec![]);
    assert_eq!(app.playback_state(), PlaybackState::Idle);
    app.play();
    assert_eq!(app.update(clicks(false, false, false, false)), vec![]);
    assert_eq!(app.playback_state(), PlaybackState::Playing);
}

#[test]
fn frame_handles_one_click() {
    let mut app = AudioApp::new("song.mp3".to_string());
    assert_eq!(app.update(clicks(true, false, false, false)), vec![AudioAction::OpenSession]);
    assert_eq!(app.update(clicks(true, false, false, false)), vec![]);
    assert_eq!(app.update(clicks(false, true, false, false)), vec![AudioAction::PauseSink]);
    assert_eq!(app.playback_state(), PlaybackState::Paused);
    assert_eq!(app.update(clicks(false, false, true, false)), vec![AudioAction::ResumeSink]);
    assert_eq!(app.update(clicks(false, false, false, true)), vec![AudioAction::CloseSession]);
    assert_eq!(app.active_sessions(), 0);
}

#[test]
fn frame_handles_clicks_in_button_order() {
    let mut app = AudioApp::new("song.mp3".to_string());
    assert_eq!(
        app.update(clicks(true, true, true, true)),
        vec![
            AudioAction::OpenSession,
            AudioAction::PauseSink,
            AudioAction::ResumeSink,
            AudioAction::CloseSession
        ]
    );
    assert_eq!(app.playback_state(), PlaybackState::Idle);
    assert_eq!(app.update(clicks(false, true, true, true)), vec![]);
    assert_eq!(app.update(clicks(true, true, false, false)), vec![
        AudioAction::OpenSession,
        AudioAction::PauseSink
    ]);
    assert_eq!(app.playback_state(), PlaybackState::Paused);
}
