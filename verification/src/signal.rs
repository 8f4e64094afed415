//! Deciding which signal to send, and to whom.
//!
//! On signal-based platforms the graceful request is an interrupt-style
//! signal to a process id, or one kernel-level broadcast to a whole
//! process group. The decision — whether to send at all, which kind of
//! signal, and to which target — is pure, and is made here; the driver
//! only performs the send that a decided request describes, ignoring its
//! outcome (graceful signaling is best-effort, and the group kill must
//! never itself fail the caller's shutdown sequence).

use vstd::prelude::*;

verus! {

/// Which shutdown request a signal carries.
#[derive(Clone, Copy, Debug, PartialEq, Eq, Structural)]
pub enum SignalKind {
    /// Ask the target to exit voluntarily, allowing its own cleanup.
    Graceful,
    /// End the target unconditionally, without its cooperation.
    Forceful,
}

/// Whom a signal request is addressed to.
#[derive(Clone, Copy, Debug, PartialEq, Eq, Structural)]
pub enum SignalTarget {
    /// One process, by its OS-assigned id.
    Process(u32),
    /// Every process sharing this group id, in one kernel-level broadcast —
    /// not an iteration over members, which could race with new members
    /// spawning mid-iteration.
    Group(u32),
}

/// One fully decided, ready-to-send signal request.
#[derive(Clone, Copy, Debug, PartialEq, Eq, Structural)]
pub struct SignalRequest {
    /// What is requested of the target.
    pub kind: SignalKind,
    /// Whom the request is addressed to.
    pub target: SignalTarget,
}

/// The graceful request for a single process: sent to its id when one is
/// available, and silently skipped when the process has already been
/// reaped and no id remains.
pub open spec fn spec_decide_terminate(id: Option<u32>) -> Option<SignalRequest> {
    match id {
        Some(pid) => Some(
            SignalRequest { kind: SignalKind::Graceful, target: SignalTarget::Process(pid) },
        ),
        None => None,
    }
}

/// The graceful request for a whole process group, addressed by the group
/// id; skipped when no id remains.
pub open spec fn spec_decide_terminate_group(id: Option<u32>) -> Option<SignalRequest> {
    match id {
        Some(gid) => Some(
            SignalRequest { kind: SignalKind::Graceful, target: SignalTarget::Group(gid) },
        ),
        None => None,
    }
}

/// The unconditional kill for a whole process group; skipped when no id
/// remains, and best-effort in any case.
pub open spec fn spec_decide_kill_group(id: Option<u32>) -> Option<SignalRequest> {
    match id {
        Some(gid) => Some(
            SignalRequest { kind: SignalKind::Forceful, target: SignalTarget::Group(gid) },
        ),
        None => None,
    }
}

/// Decides the graceful request for a single process from its id, if any.
pub fn decide_terminate(id: Option<u32>) -> (r: Option<SignalRequest>)
    ensures
        r == spec_decide_terminate(id),
{
    match id {
        Some(pid) => Some(
            SignalRequest { kind: SignalKind::Graceful, target: SignalTarget::Process(pid) },
        ),
        None => None,
    }
}

/// Decides the graceful request for a process group from its id, if any.
pub fn decide_terminate_group(id: Option<u32>) -> (r: Option<SignalRequest>)
    ensures
        r == spec_decide_terminate_group(id),
{
    match id {
        Some(gid) => Some(
            SignalRequest { kind: SignalKind::Graceful, target: SignalTarget::Group(gid) },
        ),
        None => None,
    }
}

/// Decides the unconditional group kill from the group id, if any.
pub fn decide_kill_group(id: Option<u32>) -> (r: Option<SignalRequest>)
    ensures
        r == spec_decide_kill_group(id),
{
    match id {
        Some(gid) => Some(
            SignalRequest { kind: SignalKind::Forceful, target: SignalTarget::Group(gid) },
        ),
        None => None,
    }
}

/// Whether a request addressed to `target` reaches a process with id
/// `pid` that belongs to the group with id `pgid`.
pub open spec fn spec_covers(target: SignalTarget, pid: u32, pgid: u32) -> bool {
    match target {
        SignalTarget::Process(p) => p == pid,
        SignalTarget::Group(g) => g == pgid,
    }
}

/// Checks that a group request with id `g` reaches every listed member,
/// each given as its (process id, group id) pair.
pub fn group_request_covers_all(g: u32, members: &Vec<(u32, u32)>) -> (r: bool)
    ensures
        r == (forall|i: int|
            0 <= i < members@.len() ==> spec_covers(
                SignalTarget::Group(g),
                (#[trigger] members@[i]).0,
                members@[i].1,
            )),
{
    let mut idx: usize = 0;
    while idx < members.len()
        invariant
            0 <= idx <= members@.len(),
            forall|i: int|
                0 <= i < idx ==> spec_covers(
                    SignalTarget::Group(g),
                    (#[trigger] members@[i]).0,
                    members@[i].1,
                ),
        decreases members@.len() - idx,
    {
        let (pid, pgid) = members[idx];
        if pgid != g {
            assert(!spec_covers(SignalTarget::Group(g), members@[idx as int].0, members@[idx as int].1));
            return false;
        }
        idx += 1;
    }
    true
}

/// A group broadcast reaches every member of the group at the instant of
/// the send — the originally spawned process and any sibling sharing the
/// group id alike — without iterating the members individually.
pub proof fn lemma_group_broadcast_covers(g: u32, members: Seq<(u32, u32)>)
    requires
        forall|i: int| 0 <= i < members.len() ==> (#[trigger] members[i]).1 == g,
    ensures
        forall|i: int|
            0 <= i < members.len() ==> spec_covers(
                SignalTarget::Group(g),
                (#[trigger] members[i]).0,
                members[i].1,
            ),
{
}

} // verus!
