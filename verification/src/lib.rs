//! Spawn a child process under trace supervision and hold it at the stop
//! that its `exec` delivers, so a tracer can intervene before any of the
//! target program's own instructions run.
//!
//! The crate owns the two decisions of that protocol: turning a failed
//! trace request into a launch failure instead of an untraced child, and
//! classifying the single blocking status wait so that a child handle is
//! produced exactly when the awaited process is stopped by the trace trap.

pub mod error;
pub mod spawner;
pub mod status;
