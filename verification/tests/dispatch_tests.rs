use media_viewer::dispatch::{
    classify_extension, dispatch, file_extension, is_audio_extension, is_image_extension, plan,
    target_path, window_title, Launch, StartupError, WindowKind,
};

fn args(items: &[&str]) -> Vec<String> {
    items.iter().map(|s| s.to_string()).collect()
}

#[test]
fn audio_extensions_are_classified_as_audio() {
    for ext in ["mp3", "wav", "ogg", "flac"] {
        assert_eq!(classify_extension(ext), Some(WindowKind::Audio));
        assert!(is_audio_extension(ext));
        assert!(!is_image_extension(ext));
    }
}

#[test]
fn image_extensions_are_classified_as_image() {
    for ext in ["png", "jpg", "jpeg", "bmp", "tiff", "gif", "ico"] {
        assert_eq!(classify_extension(ext), Some(WindowKind::Image));
        assert!(is_image_extension(ext));
        assert!(!is_audio_extension(ext));
    }
}

#[test]
fn other_extensions_are_not_classified() {
    for ext in ["txt", "", "mp4", "tif", "mp", "mp33", "MP3", "webp"] {
        assert_eq!(classify_extension(ext), None);
    }
}

#[test]
fn extension_is_lowercased() {
    assert_eq!(file_extension("SONG.FLAC"), "flac");
    assert_eq!(file_extension("Photo.JpEg"), "jpeg");
    assert_eq!(file_extension("track.mp3"), "mp3");
}

#[test]
fn extension_is_what_follows_the_last_dot_of_the_file_name() {
    assert_eq!(file_extension("dir/archive.tar.gz"), "gz");
    assert_eq!(file_extension("dir.d/notes"), "");
    assert_eq!(file_extension("notes"), "");
    assert_eq!(file_extension(".hidden"), "");
    assert_eq!(file_extension(""), "");
}

#[test]
fn audio_paths_dispatch_to_audio_in_any_case() {
    for path in ["a.mp3", "a.MP3", "b.Wav", "c.OGG", "song.flac", "d.FlAc"] {
        let launch = dispatch(path.to_string()).unwrap();
        assert_eq!(launch, Launch { kind: WindowKind::Audio, path: path.to_string() });
    }
}

#[test]
fn image_paths_dispatch_to_image_in_any_case() {
    for path in ["a.png", "a.PNG", "b.Jpg", "photo.jpeg", "c.BMP", "d.tiff", "e.GIF", "f.ico"] {
        let launch = dispatch(path.to_string()).unwrap();
        assert_eq!(launch, Launch { kind: WindowKind::Image, path: path.to_string() });
    }
}

#[test]
fn unsupported_extension_is_refused_with_its_name() {
    let err = dispatch("notes.txt".to_string()).unwrap_err();
    assert_eq!(err, StartupError::UnsupportedFormat("txt".to_string()));
    assert_eq!(err.message(), "Unsupported file format: txt");
    assert!(err.message().contains("txt"));
}

#[test]
fn unsupported_extension_is_reported_in_lowercase() {
    let err = dispatch("NOTES.TXT".to_string()).unwrap_err();
    assert_eq!(err.message(), "Unsupported file format: txt");
}

#[test]
fn path_without_extension_is_refused() {
    let err = dispatch("README".to_string()).unwrap_err();
    assert_eq!(err, StartupError::UnsupportedFormat(String::new()));
    assert_eq!(err.message(), "Unsupported file format: ");
}

#[test]
fn missing_argument_is_refused() {
    assert_eq!(target_path(&args(&[])), None);
    assert_eq!(target_path(&args(&["viewer"])), None);
    assert_eq!(plan(&args(&["viewer"])), Err(StartupError::MissingPath));
    assert_eq!(plan(&args(&[])), Err(StartupError::MissingPath));
    assert_eq!(StartupError::MissingPath.message(), "Please provide a file path!");
}

#[test]
fn first_argument_is_the_path() {
    assert_eq!(target_path(&args(&["viewer", "a.mp3"])), Some("a.mp3".to_string()));
    assert_eq!(target_path(&args(&["viewer", "a.mp3", "b.png"])), Some("a.mp3".to_string()));
    assert_eq!(
        plan(&args(&["viewer", "a.mp3", "b.png"])),
        Ok(Launch { kind: WindowKind::Audio, path: "a.mp3".to_string() })
    );
    assert_eq!(
        plan(&args(&["viewer", "pic.GIF"])),
        Ok(Launch { kind: WindowKind::Image, path: "pic.GIF".to_string() })
    );
    assert_eq!(
        plan(&args(&["viewer", "doc.pdf"])),
        Err(StartupError::UnsupportedFormat("pdf".to_string()))
    );
}

#[test]
fn windows_have_their_titles() {
    assert_eq!(window_title(WindowKind::Audio), "Audio Player");
    assert_eq!(window_title(WindowKind::Image), "Image Viewer");
}
