//! A minimal desktop viewer and player: the rules that decide which window a
//! file gets, the playback state machine of the audio window, and the pixel
//! grid that the image window shows.

pub mod audio;
pub mod dispatch;
pub mod viewer;
pub mod window;
