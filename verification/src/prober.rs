//! The duration prober: how the total duration of a file is found.
//!
//! Reading the file is outside this library. Which way of reading is used
//! is decided here, by the extension of the path. Whatever goes wrong while
//! reading, the duration is unknown and nothing else happens.

use crate::media::{lower_extension, lower_extension_of};
use crate::text::text_equals;
use vstd::prelude::*;

verus! {

/// A way of finding the total duration of a file.
#[derive(Clone, Copy, Debug, PartialEq, Eq, Structural)]
pub enum ProbeMethod {
    /// Add up the frame headers of an MP3 file, without decoding it.
    Mp3Frames,
    /// Open the file with the general decoder and ask it.
    Decoder,
}

/// The way in which the duration of `path` is found; none for a path
/// without extension, whose duration stays unknown.
pub open spec fn probe_method_of(path: Seq<char>) -> Option<ProbeMethod> {
    match lower_extension_of(path) {
        Some(ext) => if ext == "mp3"@ {
            Some(ProbeMethod::Mp3Frames)
        } else {
            Some(ProbeMethod::Decoder)
        },
        None => None,
    }
}

/// The way in which the duration of `path` is found.
pub fn probe_method(path: &str) -> (method: Option<ProbeMethod>)
    ensures
        method == probe_method_of(path@),
{
    match lower_extension(path) {
        Some(ext) => if text_equals(ext.as_str(), "mp3") {
            Some(ProbeMethod::Mp3Frames)
        } else {
            Some(ProbeMethod::Decoder)
        },
        None => None,
    }
}

} // verus!
