//! `iced_ruffle`: the verified core of a widget that plays Flash (`.swf`) movies.
//!
//! The library holds the decisions the widget makes — how keys and mouse events
//! become player input, when playback advances and a captured frame replaces
//! the shown one, when the persistent texture is recreated or re-uploaded, how
//! the stage size follows from the movie header, and how audio samples are
//! handed to the output device — each with its contract.

mod error;
pub mod keys;
pub mod frame;
pub mod playback;
pub mod events;
pub mod stage;
pub mod audio;

pub use error::Error;
