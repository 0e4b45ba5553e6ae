//! The audio window's playback state machine.
//!
//! The window owns at most one playback session: an output device handle
//! together with the sink bound to it. The four buttons of the window are
//! commands; each command moves the state and tells the caller which single
//! operation, if any, has to be carried out on the audio device.

use vstd::prelude::*;

verus! {

/// What the audio window is doing.
#[derive(Clone, Copy, Debug, PartialEq, Eq, Structural)]
pub enum PlaybackState {
    /// No session exists.
    Idle,
    /// A session exists and its sink is running.
    Playing,
    /// A session exists and its sink is suspended.
    Paused,
}

/// One of the four buttons of the audio window.
#[derive(Clone, Copy, Debug, PartialEq, Eq, Structural)]
pub enum Command {
    Play,
    Pause,
    Resume,
    Stop,
}

/// The operation on the audio device that a command asks for.
#[derive(Clone, Copy, Debug, PartialEq, Eq, Structural)]
pub enum AudioAction {
    /// Acquire a new output device, bind a new sink to it, open and decode
    /// the target file and queue it on the sink. Never reuses an earlier pair.
    OpenSession,
    /// Suspend the sink of the current session.
    PauseSink,
    /// Let the sink of the current session run again.
    ResumeSink,
    /// Halt the sink and release it together with the output device.
    CloseSession,
}

/// Which buttons were clicked during one frame.
#[derive(Clone, Copy, Debug, PartialEq, Eq, Structural)]
pub struct Clicks {
    pub play: bool,
    pub pause: bool,
    pub resume: bool,
    pub stop: bool,
}

/// The state that follows `s` when `c` is given.
pub open spec fn next_state(s: PlaybackState, c: Command) -> PlaybackState {
    match c {
        Command::Play => if s == PlaybackState::Idle {
            PlaybackState::Playing
        } else {
            s
        },
        Command::Pause => if s == PlaybackState::Idle {
            PlaybackState::Idle
        } else {
            PlaybackState::Paused
        },
        Command::Resume => if s == PlaybackState::Idle {
            PlaybackState::Idle
        } else {
            PlaybackState::Playing
        },
        Command::Stop => PlaybackState::Idle,
    }
}

/// The device operation that `c` asks for in state `s`, if any.
pub open spec fn action_of(s: PlaybackState, c: Command) -> Option<AudioAction> {
    match c {
        Command::Play => if s == PlaybackState::Idle {
            Some(AudioAction::OpenSession)
        } else {
            None
        },
        Command::Pause => if s == PlaybackState::Idle {
            None
        } else {
            Some(AudioAction::PauseSink)
        },
        Command::Resume => if s == PlaybackState::Idle {
            None
        } else {
            Some(AudioAction::ResumeSink)
        },
        Command::Stop => if s == PlaybackState::Idle {
            None
        } else {
            Some(AudioAction::CloseSession)
        },
    }
}

/// How many sessions are alive in state `s`.
pub open spec fn sessions_in(s: PlaybackState) -> nat {
    if s == PlaybackState::Idle {
        0
    } else {
        1
    }
}

/// The state after `c`, if its button was clicked; `s` otherwise.
pub open spec fn state_after_click(clicked: bool, s: PlaybackState, c: Command) -> PlaybackState {
    if clicked {
        next_state(s, c)
    } else {
        s
    }
}

/// The device operations of one button: none if it was not clicked.
pub open spec fn actions_of_click(clicked: bool, s: PlaybackState, c: Command) -> Seq<
    AudioAction,
> {
    if clicked {
        match action_of(s, c) {
            Some(a) => seq![a],
            None => Seq::empty(),
        }
    } else {
        Seq::empty()
    }
}

/// The state after one frame: the clicked buttons act in the order
/// Play, Pause, Resume, Stop.
pub open spec fn frame_state(s: PlaybackState, clicks: Clicks) -> PlaybackState {
    let s1 = state_after_click(clicks.play, s, Command::Play);
    let s2 = state_after_click(clicks.pause, s1, Command::Pause);
    let s3 = state_after_click(clicks.resume, s2, Command::Resume);
    state_after_click(clicks.stop, s3, Command::Stop)
}

/// The device operations of one frame, in the order in which they are due.
pub open spec fn frame_actions(s: PlaybackState, clicks: Clicks) -> Seq<AudioAction> {
    let s1 = state_after_click(clicks.play, s, Command::Play);
    let s2 = state_after_click(clicks.pause, s1, Command::Pause);
    let s3 = state_after_click(clicks.resume, s2, Command::Resume);
    actions_of_click(clicks.play, s, Command::Play) + actions_of_click(
        clicks.pause,
        s1,
        Command::Pause,
    ) + actions_of_click(clicks.resume, s2, Command::Resume) + actions_of_click(
        clicks.stop,
        s3,
        Command::Stop,
    )
}

/// Stands for the output device handle and the sink bound to it. The two are
/// made and released as one value, so neither exists without the other.
#[derive(Clone, Copy, Debug, PartialEq, Eq, Structural)]
struct Session {
    /// Whether the sink is suspended.
    paused: bool,
}

/// The state of the audio window.
#[derive(Debug)]
pub struct AudioApp {
    file_path: String,
    session: Option<Session>,
    is_playing: bool,
}

impl AudioApp {
    /// The flag and the session go together: the flag is set exactly while
    /// a session exists.
    pub closed spec fn wf(&self) -> bool {
        self.is_playing == self.session.is_some()
    }

    /// The playback state that the fields stand for.
    pub closed spec fn state(&self) -> PlaybackState {
        match self.session {
            None => PlaybackState::Idle,
            Some(s) => if s.paused {
                PlaybackState::Paused
            } else {
                PlaybackState::Playing
            },
        }
    }

    /// The path of the file that this window plays.
    pub closed spec fn path(&self) -> Seq<char> {
        self.file_path@
    }

    /// A window for `path`, with no session.
    pub fn new(path: String) -> (app: AudioApp)
        ensures
            app.wf(),
            app.state() == PlaybackState::Idle,
            app.path() == path@,
    {
        AudioApp { file_path: path, session: None, is_playing: false }
    }

    /// Starts playback unless a session exists already.
    pub fn play(&mut self) -> (action: Option<AudioAction>)
        requires
            old(self).wf(),
        ensures
            final(self).wf(),
            final(self).path() == old(self).path(),
            final(self).state() == next_state(old(self).state(), Command::Play),
            action == action_of(old(self).state(), Command::Play),
    {
        if self.is_playing {
            return None;
        }
        self.session = Some(Session { paused: false });
        self.is_playing = true;
        Some(AudioAction::OpenSession)
    }

    /// Suspends the sink, if there is one.
    pub fn pause(&mut self) -> (action: Option<AudioAction>)
        requires
            old(self).wf(),
        ensures
            final(self).wf(),
            final(self).path() == old(self).path(),
            final(self).state() == next_state(old(self).state(), Command::Pause),
            action == action_of(old(self).state(), Command::Pause),
    {
        if self.session.is_some() {
            self.session = Some(Session { paused: true });
            Some(AudioAction::PauseSink)
        } else {
            None
        }
    }

    /// Lets the sink run again, if there is one.
    pub fn resume(&mut self) -> (action: Option<AudioAction>)
        requires
            old(self).wf(),
        ensures
            final(self).wf(),
            final(self).path() == old(self).path(),
            final(self).state() == next_state(old(self).state(), Command::Resume),
            action == action_of(old(self).state(), Command::Resume),
    {
        if self.session.is_some() {
            self.session = Some(Session { paused: false });
            Some(AudioAction::ResumeSink)
        } else {
            None
        }
    }

    /// Ends the session, if there is one.
    pub fn stop(&mut self) -> (action: Option<AudioAction>)
        requires
            old(self).wf(),
        ensures
            final(self).wf(),
            final(self).path() == old(self).path(),
            final(self).state() == next_state(old(self).state(), Command::Stop),
            action == action_of(old(self).state(), Command::Stop),
    {
        let action = if self.session.is_some() {
            Some(AudioAction::CloseSession)
        } else {
            None
        };
        self.session = None;
        self.is_playing = false;
        action
    }

    /// Carries out one command.
    pub fn apply(&mut self, command: Command) -> (action: Option<AudioAction>)
        requires
            old(self).wf(),
        ensures
            final(self).wf(),
            final(self).path() == old(self).path(),
            final(self).state() == next_state(old(self).state(), command),
            action == action_of(old(self).state(), command),
    {
        match command {
            Command::Play => self.play(),
            Command::Pause => self.pause(),
            Command::Resume => self.resume(),
            Command::Stop => self.stop(),
        }
    }

    /// Handles the clicks of one frame: the clicked buttons act in the order
    /// Play, Pause, Resume, Stop, and the device operations they ask for are
    /// returned in that order.
    pub fn update(&mut self, clicks: Clicks) -> (actions: Vec<AudioAction>)
        requires
            old(self).wf(),
        ensures
            final(self).wf(),
            final(self).path() == old(self).path(),
            final(self).state() == frame_state(old(self).state(), clicks),
            actions@ == frame_actions(old(self).state(), clicks),
    {
        let mut actions: Vec<AudioAction> = Vec::new();
        if clicks.play {
            if let Some(a) = self.play() {
                actions.push(a);
            }
        }
        if clicks.pause {
            if let Some(a) = self.pause() {
                actions.push(a);
            }
        }
        if clicks.resume {
            if let Some(a) = self.resume() {
                actions.push(a);
            }
        }
        if clicks.stop {
            if let Some(a) = self.stop() {
                actions.push(a);
            }
        }
        assert(actions@ =~= frame_actions(old(self).state(), clicks));
        actions
    }

    /// The current playback state.
    pub fn playback_state(&self) -> (s: PlaybackState)
        ensures
            s == self.state(),
    {
        match self.session {
            None => PlaybackState::Idle,
            Some(s) => if s.paused {
                PlaybackState::Paused
            } else {
                PlaybackState::Playing
            },
        }
    }

    /// The number of sessions that are alive: zero or one.
    pub fn active_sessions(&self) -> (n: usize)
        ensures
            n == sessions_in(self.state()),
    {
        if self.session.is_some() {
            1
        } else {
            0
        }
    }

    /// The flag that Play consults.
    pub fn is_playing(&self) -> (b: bool)
        requires
            self.wf(),
        ensures
            b == (self.state() != PlaybackState::Idle),
    {
        self.is_playing
    }

    /// The path of the file that this window plays.
    pub fn file_path(&self) -> (p: &str)
        ensures
            p@ == self.path(),
    {
        self.file_path.as_str()
    }
}

/// Play on a window that is not idle changes nothing and asks for no
/// operation, so a second Play never opens a second session.
pub proof fn play_is_idempotent(s: PlaybackState)
    ensures
        next_state(next_state(s, Command::Play), Command::Play) == next_state(s, Command::Play),
        action_of(next_state(s, Command::Play), Command::Play) is None,
        s != PlaybackState::Idle ==> next_state(s, Command::Play) == s && action_of(
            s,
            Command::Play,
        ) is None,
{
}

/// Play on an idle window opens a session and leaves the window playing.
pub proof fn play_from_idle_opens_session()
    ensures
        next_state(PlaybackState::Idle, Command::Play) == PlaybackState::Playing,
        action_of(PlaybackState::Idle, Command::Play) == Some(AudioAction::OpenSession),
        sessions_in(next_state(PlaybackState::Idle, Command::Play)) == 1,
{
}

/// Stop leaves no session, whatever the state was, and releases the session
/// exactly when there was one.
pub proof fn stop_releases_session(s: PlaybackState)
    ensures
        next_state(s, Command::Stop) == PlaybackState::Idle,
        sessions_in(next_state(s, Command::Stop)) == 0,
        action_of(s, Command::Stop) == (if sessions_in(s) == 1 {
            Some(AudioAction::CloseSession)
        } else {
            None
        }),
{
}

/// Pause and Resume on an idle window change nothing and ask for nothing.
pub proof fn pause_and_resume_need_a_session()
    ensures
        next_state(PlaybackState::Idle, Command::Pause) == PlaybackState::Idle,
        next_state(PlaybackState::Idle, Command::Resume) == PlaybackState::Idle,
        action_of(PlaybackState::Idle, Command::Pause) is None,
        action_of(PlaybackState::Idle, Command::Resume) is None,
{
}

/// Pause and Resume never create or release a session.
pub proof fn pause_and_resume_keep_the_session(s: PlaybackState)
    ensures
        sessions_in(next_state(s, Command::Pause)) == sessions_in(s),
        sessions_in(next_state(s, Command::Resume)) == sessions_in(s),
{
}

/// No command ever leaves more than one session alive, and a session is
/// opened only from the idle state and closed only from another.
pub proof fn at_most_one_session(s: PlaybackState, c: Command)
    ensures
        sessions_in(next_state(s, c)) <= 1,
        action_of(s, c) == Some(AudioAction::OpenSession) ==> sessions_in(s) == 0 && sessions_in(
            next_state(s, c),
        ) == 1,
        action_of(s, c) == Some(AudioAction::CloseSession) ==> sessions_in(s) == 1 && sessions_in(
            next_state(s, c),
        ) == 0,
        sessions_in(next_state(s, c)) != sessions_in(s) ==> action_of(s, c) is Some,
{
}

/// Play followed by Stop on an idle window ends idle again: one session is
/// opened, the same one is closed, and a later Play opens a new one.
pub proof fn play_then_stop_is_a_cycle()
    ensures
        next_state(next_state(PlaybackState::Idle, Command::Play), Command::Stop)
            == PlaybackState::Idle,
        action_of(PlaybackState::Idle, Command::Play) == Some(AudioAction::OpenSession),
        action_of(next_state(PlaybackState::Idle, Command::Play), Command::Stop) == Some(
            AudioAction::CloseSession,
        ),
        action_of(
            next_state(next_state(PlaybackState::Idle, Command::Play), Command::Stop),
            Command::Play,
        ) == Some(AudioAction::OpenSession),
{
}

} // verus!
