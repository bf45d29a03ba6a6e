//! The error taxonomy of the playback engine.
//!
//! Every failure aborts the current session and is surfaced to the
//! controller exactly once as a terminal outcome; nothing is retried by the
//! engine itself — a fresh play request is the only retry path.

use vstd::prelude::*;

verus! {

/// A reason for which a playback session can fail.
#[derive(Clone, Copy, Debug, PartialEq, Eq, Structural)]
pub enum PlayerError {
    /// The network connection could not be opened: connection failure,
    /// non-2xx response, or a malformed URL.
    StreamOpenError,
    /// The stream advertised no bitrate; the engine falls back to a
    /// conservative default rather than failing outright, so this reason
    /// is reported only when a caller chooses to treat it as fatal.
    MissingStreamMetadata,
    /// The stream's format is unrecognized, or the output device could not
    /// be acquired.
    DecodeOpenError,
    /// Malformed data was met in the middle of the stream.
    DecodeRuntimeError,
    /// The output device failed during playback.
    DeviceError,
}

} // verus!
