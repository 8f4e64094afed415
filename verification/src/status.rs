//! Outcomes of a completed wait and of a whole termination call.

use vstd::prelude::*;

verus! {

/// What the operating system recorded when a child process ended.
///
/// Exactly one of the three cases holds at a time: the process exited
/// voluntarily with a numeric code, it was ended by a signal or abnormal
/// event, or the platform reported neither.
#[derive(Clone, Copy, Debug, PartialEq, Eq, Structural)]
pub enum ExitStatus {
    /// The process exited voluntarily with this code.
    Code(i32),
    /// The process was ended by the signal or abnormal event with this number.
    Signaled(i32),
    /// The platform reported neither a code nor a signal.
    Unknown,
}

impl ExitStatus {
    /// The exit code, present exactly when the process exited voluntarily.
    pub fn code(&self) -> (r: Option<i32>)
        ensures
            r == (match *self {
                ExitStatus::Code(c) => Some(c),
                _ => None::<i32>,
            }),
    {
        match *self {
            ExitStatus::Code(c) => Some(c),
            _ => None,
        }
    }

    /// The terminating signal, present exactly when the process was ended by one.
    pub fn signal(&self) -> (r: Option<i32>)
        ensures
            r == (match *self {
                ExitStatus::Signaled(s) => Some(s),
                _ => None::<i32>,
            }),
    {
        match *self {
            ExitStatus::Signaled(s) => Some(s),
            _ => None,
        }
    }
}

/// The result of one bounded termination call.
#[derive(Clone, Copy, Debug, PartialEq, Eq, Structural)]
pub enum TerminationOutcome {
    /// The process ended on its own, gracefully or not, before or at the
    /// deadline; its real exit status is carried along.
    Exited(ExitStatus),
    /// The deadline elapsed and the process was forcibly killed; its own
    /// exit status is no longer meaningful and is not retrieved.
    KilledAfterTimeout,
}

/// A hard error of a termination call.
///
/// A rejected graceful request is never an error: graceful shutdown is
/// best-effort, and the wait-or-timeout logic is the source of truth.
#[derive(Clone, Copy, Debug, PartialEq, Eq, Structural)]
pub enum TermError {
    /// The primitive that awaits the process's exit itself failed;
    /// the protocol cannot proceed without a working wait.
    WaitFailure,
    /// The forced-kill primitive failed during escalation; the process
    /// may still be running and the caller must know.
    KillFailure,
}

} // verus!
