//! The window that is opened for a launch decision.

use vstd::prelude::*;
use crate::audio::{AudioApp, PlaybackState};
use crate::dispatch::{Launch, WindowKind};
use crate::viewer::{grid_shows_file, loads, ImageApp, ImageSource};

verus! {

/// The one window of the program, chosen once at startup.
#[derive(Debug)]
pub enum Window {
    Audio(AudioApp),
    Image(ImageApp),
}

/// Whether `window` is the freshly opened window for the file at `path`,
/// whose contents are `contents` where they could be read.
pub open spec fn opened_for(
    window: Window,
    kind: WindowKind,
    path: Seq<char>,
    contents: Option<Seq<u8>>,
) -> bool {
    match kind {
        WindowKind::Audio => window matches Window::Audio(app) && app.wf() && app.state()
            == PlaybackState::Idle && app.path() == path,
        WindowKind::Image => window matches Window::Image(app) && app.wf() && (
        app.retained() is Some <==> (contents matches Some(b) && loads(path, b))) && (
        app.retained() matches Some(grid) ==> (contents matches Some(b) && grid_shows_file(
            grid,
            path,
            b,
        ))),
    }
}

/// The contents as a sequence of bytes, where there are any.
pub open spec fn contents_view(contents: Option<Vec<u8>>) -> Option<Seq<u8>> {
    match contents {
        Some(b) => Some(b@),
        None => None,
    }
}

/// Opens the window that `launch` asks for. The audio window starts idle and
/// does not look at the contents. The image window decodes the contents once
/// and retains the picture; without contents, or with contents that cannot
/// be decoded, it retains nothing.
pub fn open_window(launch: Launch, contents: Option<Vec<u8>>) -> (window: Window)
    ensures
        opened_for(window, launch.kind, launch.path@, contents_view(contents)),
{
    match launch.kind {
        WindowKind::Audio => Window::Audio(AudioApp::new(launch.path)),
        WindowKind::Image => {
            let source = match contents {
                Some(bytes) => Some(ImageSource { path: launch.path, bytes }),
                None => None,
            };
            Window::Image(ImageApp::new(source))
        },
    }
}

impl Window {
    /// Which of the two windows this is.
    pub fn kind(&self) -> (kind: WindowKind)
        ensures
            kind == (match self {
                Window::Audio(_) => WindowKind::Audio,
                Window::Image(_) => WindowKind::Image,
            }),
    {
        match self {
            Window::Audio(_) => WindowKind::Audio,
            Window::Image(_) => WindowKind::Image,
        }
    }
}

/// A freshly opened audio window holds no session.
pub proof fn audio_window_opens_idle(window: Window, path: Seq<char>, contents: Option<Seq<u8>>)
    requires
        opened_for(window, WindowKind::Audio, path, contents),
    ensures
        window matches Window::Audio(app) && crate::audio::sessions_in(app.state()) == 0,
{
}

/// The picture of a freshly opened image window has as many pixels as the
/// decoded file is wide times high.
pub proof fn image_window_shows_whole_picture(
    window: Window,
    path: Seq<char>,
    contents: Option<Seq<u8>>,
)
    requires
        opened_for(window, WindowKind::Image, path, contents),
    ensures
        window matches Window::Image(app) && (app.retained() matches Some(grid) ==> (
        contents matches Some(b) && crate::viewer::decoded_rgba8(path, b) matches Some(
            (width, height, data),
        ) && grid.view().len() == width as int * height as int && grid.cols() == width
            && grid.rows() == height)),
{
}

} // verus!
