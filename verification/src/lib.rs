//! Verified core of a music-composition host application.
//!
//! The library contains the logic that drives a long-running worker process
//! through a line-oriented sentinel protocol and an interruptible audio
//! playback session: the protocol codec, the process session manager, and
//! the playback controller, together with the path and configuration rules
//! they rely on.  All I/O (process spawning, pipe reads and writes, the
//! audio device, the notification channel) is performed by the host around
//! this crate; the functions here decide, and their contracts say exactly
//! what they decide.

pub mod codec;
pub mod config;
pub mod json;
pub mod paths;
pub mod playback;
pub mod session;
pub mod text;
pub mod tune;
