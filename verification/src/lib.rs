//! Command-invocation bridge for an external song-metadata script.
//!
//! The library holds the decision logic of the bridge: resolving the
//! on-disk location of the helper script across deployment modes,
//! planning the process invocation, and interpreting the finished
//! process's outcome (exit status, captured output streams) as either
//! a decoded metadata record or a classified error.  Process spawning
//! and all other I/O stay with the surrounding application.

pub mod bridge;
pub mod errors;
pub mod jsonval;
pub mod locator;
pub mod metadata;
pub mod textenc;
