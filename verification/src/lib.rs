//! Graceful termination protocol for a child process or process group.
//!
//! The crate asks a child process to exit cleanly, waits for it to do so,
//! and escalates to an unconditional kill when a caller-supplied deadline
//! elapses. The protocol is expressed as an explicit state machine so that
//! its tie-break rule (an observed exit is preferred over a forced kill)
//! and the idempotence of the graceful request are stated and proved,
//! independently of the concurrency primitive that drives it.

pub mod child;
pub mod escalation;
pub mod machine;
pub mod race;
pub mod signal;
pub mod status;

pub use status::ExitStatus;
pub use status::TermError;
pub use status::TerminationOutcome;
