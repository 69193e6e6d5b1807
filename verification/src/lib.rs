//! The playback engine of a desktop audio-track player, with what the
//! player builds around it.
//!
//! The library decides and keeps the books; it touches no device, no file
//! and no clock. Its caller owns those, performs what the library asks for
//! and tells it what happened.
//!
//! - [`clock`]: the elapsed-time tracker, driven by instants that the
//!   caller reads from a monotonic clock.
//! - [`engine`]: the state machine of the worker that owns the audio
//!   output, from event to next action.
//! - [`protocol`]: what holds of whole exchanges between the engine and its
//!   driver.
//! - [`session`]: the playlist and the transport operations that callers
//!   use, each of which yields the command to send to the engine.
//! - [`source`]: the plan of a seekable source.
//! - [`stream`]: the stream of samples of a source, from event to next
//!   request.
//! - [`prober`]: how the duration of a file is found.
//! - [`devices`]: the choice among the output devices of the system.
//! - [`media`]: names, extensions and formats of media paths.
//! - [`playlist`], [`library`]: lists of tracks and of library folders.
//! - [`text`]: helpers on text.

pub mod clock;
pub mod devices;
pub mod engine;
pub mod library;
pub mod media;
pub mod playlist;
pub mod prober;
pub mod protocol;
pub mod session;
pub mod source;
pub mod stream;
pub mod text;
