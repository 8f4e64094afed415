//! The borrowed handle of the external process-management collaborator.
//!
//! Spawning the child, piping its I/O and parsing its exit code are the
//! collaborator's business; this crate only borrows its handle for the
//! duration of one termination call and reads the process id from it.
//! The id read is the single trusted call; everything decided from the
//! id is verified in [`crate::signal`].

use vstd::prelude::*;

use crate::signal::SignalKind;
use crate::signal::SignalRequest;
use crate::signal::SignalTarget;
use crate::signal::decide_kill_group;
use crate::signal::decide_terminate;
use crate::signal::decide_terminate_group;

verus! {

/// `tokio::process::Child`: the collaborator's handle to a live child
/// process. Opaque here — the protocol never looks inside it, it only
/// asks for the process id.
#[verifier::external_type_specification]
#[verifier::external_body]
pub struct ExChild(tokio::process::Child);

/// Relies on `tokio::process::Child::id`: the OS-assigned process id
/// while the child is still running, `None` once it has been polled to
/// completion (ids may be reused after that, so none is reported).
/// Nothing more is assumed of it: the decisions below hold for either
/// answer.
pub assume_specification[ tokio::process::Child::id ](child: &tokio::process::Child) -> (r: Option<
    u32,
>);

/// Decides the graceful request for this child: a graceful signal to the
/// child's own process id when one is still available, and nothing — the
/// request is silently skipped — when the child was already reaped.
pub fn plan_terminate(child: &tokio::process::Child) -> (r: Option<SignalRequest>)
    ensures
        r matches Some(req) ==> req.kind == SignalKind::Graceful && req.target is Process,
{
    decide_terminate(child.id())
}

/// Decides the graceful request for this child's whole process group,
/// addressed by the group id (the id the child was spawned with); skipped
/// when no id remains.
pub fn plan_terminate_group(child: &tokio::process::Child) -> (r: Option<SignalRequest>)
    ensures
        r matches Some(req) ==> req.kind == SignalKind::Graceful && req.target is Group,
{
    decide_terminate_group(child.id())
}

/// Decides the unconditional kill broadcast for this child's whole
/// process group; skipped when no id remains. The send it describes is
/// best-effort: its errors are swallowed, so forceful cleanup never
/// fails the caller's shutdown sequence.
pub fn plan_kill_group(child: &tokio::process::Child) -> (r: Option<SignalRequest>)
    ensures
        r matches Some(req) ==> req.kind == SignalKind::Forceful && req.target is Group,
{
    decide_kill_group(child.id())
}

} // verus!
