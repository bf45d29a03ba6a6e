//! Core of an internet-radio player: the streaming playback engine.
//!
//! The engine takes a station URL, models the fetch of its byte stream
//! through a fixed-capacity buffer window with a prefetch gate, drives a
//! decode-and-render sink as a state machine with cooperative cancellation,
//! and exposes a small control surface (play, stop, set-volume) through a
//! session controller that owns at most one playback session at a time.
//! The station catalog and the UI around it are thin collaborators; the
//! engine itself only ever sees plain values.

pub mod buffer;
pub mod controller;
pub mod errors;
pub mod session;
pub mod stations;
pub mod ui;
pub mod volume;
