//! The entry dispatcher: from the command line to the window that is opened.
//!
//! The file's extension, lowercased, decides. Audio extensions get the audio
//! window, image extensions the image window, and anything else is refused
//! with a message that names the extension.

use vstd::prelude::*;

verus! {

/// The two windows that the program can open.
#[derive(Clone, Copy, Debug, PartialEq, Eq, Structural)]
pub enum WindowKind {
    Audio,
    Image,
}

/// Why no window is opened.
#[derive(Debug, PartialEq, Eq)]
pub enum StartupError {
    /// The command line holds no file path.
    MissingPath,
    /// The file's lowercased extension is none of the supported ones.
    UnsupportedFormat(String),
}

/// The decision of the dispatcher: which window to open, and for which file.
#[derive(Debug, PartialEq, Eq)]
pub struct Launch {
    pub kind: WindowKind,
    pub path: String,
}

/// The extension of a path, as `std::path::Path::extension` gives it on the
/// platform the library is built for.
pub uninterp spec fn path_extension(path: Seq<char>) -> Option<Seq<char>>;

/// The lowercase form of a text, as `str::to_lowercase` gives it.
pub uninterp spec fn lowercase_of(text: Seq<char>) -> Seq<char>;

/// Calls `std::path::Path::extension` on `path`. Trusted: the result is the
/// named extension of the path, and absent exactly when that is absent. The
/// path is valid Unicode, so its extension is handed back unchanged.
#[verifier::external_body]
fn extension_of(path: &str) -> (ext: Option<String>)
    ensures
        ext matches Some(e) ==> path_extension(path@) == Some(e@),
        ext is None ==> path_extension(path@) is None,
{
    match std::path::Path::new(path).extension() {
        Some(e) => Some(e.to_string_lossy().into_owned()),
        None => None,
    }
}

/// Calls `str::to_lowercase` on `text`. Trusted: the result is the named
/// lowercase form of the text.
#[verifier::external_body]
fn lowercased(text: &str) -> (lower: String)
    ensures
        lower@ == lowercase_of(text@),
{
    text.to_lowercase()
}

/// The extension of a path, empty where the path has none.
pub open spec fn extension_or_empty(path: Seq<char>) -> Seq<char> {
    match path_extension(path) {
        Some(e) => e,
        None => Seq::empty(),
    }
}

/// The text by which a path is classified: its extension, or the empty text,
/// in lowercase.
pub open spec fn lowered_extension(path: Seq<char>) -> Seq<char> {
    lowercase_of(extension_or_empty(path))
}

/// Whether `ext` is one of the audio extensions.
pub open spec fn names_audio(ext: Seq<char>) -> bool {
    ext == "mp3"@ || ext == "wav"@ || ext == "ogg"@ || ext == "flac"@
}

/// Whether `ext` is one of the image extensions.
pub open spec fn names_image(ext: Seq<char>) -> bool {
    ext == "png"@ || ext == "jpg"@ || ext == "jpeg"@ || ext == "bmp"@ || ext == "tiff"@ || ext
        == "gif"@ || ext == "ico"@
}

/// The window for a lowercased extension, if it is supported.
pub open spec fn kind_of(ext: Seq<char>) -> Option<WindowKind> {
    if names_audio(ext) {
        Some(WindowKind::Audio)
    } else if names_image(ext) {
        Some(WindowKind::Image)
    } else {
        None
    }
}

/// The window for a path, if its extension is supported.
pub open spec fn window_for(path: Seq<char>) -> Option<WindowKind> {
    kind_of(lowered_extension(path))
}

/// The text of the message for an unsupported extension.
pub open spec fn unsupported_message(ext: Seq<char>) -> Seq<char> {
    "Unsupported file format: "@ + ext
}

fn same_text(a: &str, b: &str) -> (same: bool)
    ensures
        same == (a@ == b@),
{
    a.to_owned() == b.to_owned()
}

/// Whether `ext` is one of mp3, wav, ogg, flac.
pub fn is_audio_extension(ext: &str) -> (audio: bool)
    ensures
        audio == names_audio(ext@),
{
    same_text(ext, "mp3") || same_text(ext, "wav") || same_text(ext, "ogg") || same_text(
        ext,
        "flac",
    )
}

/// Whether `ext` is one of png, jpg, jpeg, bmp, tiff, gif, ico.
pub fn is_image_extension(ext: &str) -> (image: bool)
    ensures
        image == names_image(ext@),
{
    same_text(ext, "png") || same_text(ext, "jpg") || same_text(ext, "jpeg") || same_text(
        ext,
        "bmp",
    ) || same_text(ext, "tiff") || same_text(ext, "gif") || same_text(ext, "ico")
}

/// Classifies a lowercased extension. The comparison is exact: an extension
/// in another case is not supported here, it is lowercased before.
pub fn classify_extension(ext: &str) -> (kind: Option<WindowKind>)
    ensures
        kind == kind_of(ext@),
{
    if is_audio_extension(ext) {
        Some(WindowKind::Audio)
    } else if is_image_extension(ext) {
        Some(WindowKind::Image)
    } else {
        None
    }
}

/// The lowercased extension of `path`, empty where the path has none.
pub fn file_extension(path: &str) -> (ext: String)
    ensures
        ext@ == lowered_extension(path@),
{
    let raw = match extension_of(path) {
        Some(e) => e,
        None => String::new(),
    };
    lowercased(raw.as_str())
}

/// The file path on a command line: the first argument after the program's
/// name.
pub fn target_path(args: &Vec<String>) -> (path: Option<String>)
    ensures
        args@.len() >= 2 ==> (path matches Some(p) && p@ == args@[1]@),
        args@.len() < 2 ==> path is None,
{
    if args.len() >= 2 {
        Some(args[1].clone())
    } else {
        None
    }
}

/// Decides which window `path` gets.
pub fn dispatch(path: String) -> (r: Result<Launch, StartupError>)
    ensures
        match window_for(path@) {
            Some(k) => (r matches Ok(l) && l.kind == k && l.path@ == path@),
            None => (r matches Err(StartupError::UnsupportedFormat(e)) && e@ == lowered_extension(
                path@,
            )),
        },
{
    let ext = file_extension(path.as_str());
    match classify_extension(ext.as_str()) {
        Some(kind) => Ok(Launch { kind, path }),
        None => Err(StartupError::UnsupportedFormat(ext)),
    }
}

/// The whole decision at startup: no window without a path on the command
/// line, and otherwise what `dispatch` says of that path.
pub fn plan(args: &Vec<String>) -> (r: Result<Launch, StartupError>)
    ensures
        args@.len() < 2 ==> r == Err::<Launch, StartupError>(StartupError::MissingPath),
        args@.len() >= 2 ==> (match window_for(args@[1]@) {
            Some(k) => (r matches Ok(l) && l.kind == k && l.path@ == args@[1]@),
            None => (r matches Err(StartupError::UnsupportedFormat(e)) && e@ == lowered_extension(
                args@[1]@,
            )),
        }),
{
    match target_path(args) {
        Some(path) => dispatch(path),
        None => Err(StartupError::MissingPath),
    }
}

/// The title of a window.
pub fn window_title(kind: WindowKind) -> (title: &'static str)
    ensures
        title@ == match kind {
            WindowKind::Audio => "Audio Player"@,
            WindowKind::Image => "Image Viewer"@,
        },
{
    match kind {
        WindowKind::Audio => "Audio Player",
        WindowKind::Image => "Image Viewer",
    }
}

impl StartupError {
    /// The diagnostic with which the program ends. For an unsupported
    /// extension it ends in that extension.
    pub fn message(&self) -> (text: String)
        ensures
            match self {
                StartupError::MissingPath => text@ == "Please provide a file path!"@,
                StartupError::UnsupportedFormat(ext) => text@ == unsupported_message(ext@),
            },
    {
        match self {
            StartupError::MissingPath => "Please provide a file path!".to_owned(),
            StartupError::UnsupportedFormat(ext) => {
                let mut text = "Unsupported file format: ".to_owned();
                text.append(ext.as_str());
                text
            },
        }
    }
}

/// Each of the four audio extensions gets the audio window.
pub proof fn audio_extensions_open_audio()
    ensures
        kind_of("mp3"@) == Some(WindowKind::Audio),
        kind_of("wav"@) == Some(WindowKind::Audio),
        kind_of("ogg"@) == Some(WindowKind::Audio),
        kind_of("flac"@) == Some(WindowKind::Audio),
{
}

/// No extension is both an audio and an image extension.
pub proof fn audio_and_image_are_disjoint(ext: Seq<char>)
    ensures
        !(names_audio(ext) && names_image(ext)),
{
    reveal_strlit("mp3");
    reveal_strlit("wav");
    reveal_strlit("ogg");
    reveal_strlit("flac");
    reveal_strlit("png");
    reveal_strlit("jpg");
    reveal_strlit("jpeg");
    reveal_strlit("bmp");
    reveal_strlit("tiff");
    reveal_strlit("gif");
    reveal_strlit("ico");
    if names_audio(ext) && names_image(ext) {
        assert(ext.len() == 3 || ext.len() == 4);
        assert(ext[0] == 'm' || ext[0] == 'w' || ext[0] == 'o' || ext[0] == 'f');
        assert(false);
    }
}

/// Each of the seven image extensions gets the image window.
pub proof fn image_extensions_open_image()
    ensures
        kind_of("png"@) == Some(WindowKind::Image),
        kind_of("jpg"@) == Some(WindowKind::Image),
        kind_of("jpeg"@) == Some(WindowKind::Image),
        kind_of("bmp"@) == Some(WindowKind::Image),
        kind_of("tiff"@) == Some(WindowKind::Image),
        kind_of("gif"@) == Some(WindowKind::Image),
        kind_of("ico"@) == Some(WindowKind::Image),
{
    audio_and_image_are_disjoint("png"@);
    audio_and_image_are_disjoint("jpg"@);
    audio_and_image_are_disjoint("jpeg"@);
    audio_and_image_are_disjoint("bmp"@);
    audio_and_image_are_disjoint("tiff"@);
    audio_and_image_are_disjoint("gif"@);
    audio_and_image_are_disjoint("ico"@);
}

/// An extension gets a window exactly when it is one of the eleven
/// supported ones; every other one is refused.
pub proof fn only_supported_extensions_open(ext: Seq<char>)
    ensures
        kind_of(ext) == Some(WindowKind::Audio) <==> names_audio(ext),
        kind_of(ext) == Some(WindowKind::Image) <==> names_image(ext),
        kind_of(ext) is None <==> !names_audio(ext) && !names_image(ext),
{
    audio_and_image_are_disjoint(ext);
}

/// The window depends on the lowercased extension alone: two paths whose
/// extensions differ only in case, and so have one lowercase form, get the
/// same window or are both refused.
pub proof fn window_depends_on_lowercase_only(p: Seq<char>, q: Seq<char>)
    requires
        lowercase_of(extension_or_empty(p)) == lowercase_of(extension_or_empty(q)),
    ensures
        window_for(p) == window_for(q),
{
}

/// The message for an unsupported extension ends in that extension.
pub proof fn message_names_the_extension(ext: Seq<char>)
    ensures
        unsupported_message(ext).len() >= ext.len(),
        unsupported_message(ext).subrange(
            unsupported_message(ext).len() - ext.len(),
            unsupported_message(ext).len() as int,
        ) == ext,
{
    let m = unsupported_message(ext);
    assert(m.subrange(m.len() - ext.len(), m.len() as int) =~= ext);
}

} // verus!
