//! A discrete-time model of the wait-versus-timer race.
//!
//! The driver of a real call races the process's exit against a timer.
//! To state and prove what the protocol returns and how long it takes,
//! this module models one child process by when (in abstract time units
//! after the graceful request) its exit becomes observable, what status
//! the wait then reports, and whether the two primitives themselves fail.
//! The simulations below drive the actual [`Controller`] with the events
//! such a process produces, so every property proved here is a property
//! of the transition table, not of a parallel re-implementation.

use vstd::prelude::*;

use crate::machine::Action;
use crate::machine::Controller;
use crate::machine::Event;
use crate::status::ExitStatus;
use crate::status::TermError;
use crate::status::TerminationOutcome;

verus! {

/// One child process, as a single termination call sees it.
#[derive(Clone, Copy, Debug, PartialEq, Eq, Structural)]
pub struct ModelProcess {
    /// Time units after the graceful request at which the process's exit
    /// becomes observable to the wait primitive.
    pub exit_at: u64,
    /// The exit status the wait primitive reports for it.
    pub status: ExitStatus,
    /// Whether the wait primitive itself fails, at once, e.g. on an id
    /// that was invalid from the start.
    pub wait_fails: bool,
    /// Whether the forced-kill primitive fails when it is invoked.
    pub kill_fails: bool,
}

/// Who wins the race: an exit observable at or before the deadline wins,
/// and an exit at the very instant the deadline elapses still wins — the
/// graceful result is preferred over the forced kill.
pub open spec fn spec_exit_wins(exit_at: u64, deadline: u64) -> bool {
    exit_at <= deadline
}

/// The event the race hands the controller: a failing wait loses the race
/// to no one (it errors at once), otherwise the earlier of exit and timer
/// decides, ties going to the exit.
pub open spec fn spec_race_event(p: ModelProcess, deadline: u64) -> Event {
    if p.wait_fails {
        Event::WaitFailed
    } else if spec_exit_wins(p.exit_at, deadline) {
        Event::ExitObserved(p.status)
    } else {
        Event::TimerElapsed
    }
}

/// The event the forced kill hands the controller.
pub open spec fn spec_kill_event(p: ModelProcess) -> Event {
    if p.kill_fails {
        Event::KillFailed
    } else {
        Event::KillAcked
    }
}

/// What a bounded termination call returns for this process and deadline.
pub open spec fn spec_timeout_result(p: ModelProcess, deadline: u64) -> Result<
    TerminationOutcome,
    TermError,
> {
    if p.wait_fails {
        Err(TermError::WaitFailure)
    } else if spec_exit_wins(p.exit_at, deadline) {
        Ok(TerminationOutcome::Exited(p.status))
    } else if p.kill_fails {
        Err(TermError::KillFailure)
    } else {
        Ok(TerminationOutcome::KilledAfterTimeout)
    }
}

/// How long the call takes: a failing wait returns at once, an observed
/// exit takes the process's own exit latency, and a timeout takes the
/// deadline plus the kill acknowledgment latency — never the process's
/// natural runtime.
pub open spec fn spec_timeout_elapsed(p: ModelProcess, deadline: u64, kill_latency: u64) -> int {
    if p.wait_fails {
        0
    } else if spec_exit_wins(p.exit_at, deadline) {
        p.exit_at as int
    } else {
        deadline + kill_latency
    }
}

/// What an unbounded termination call returns for this process.
pub open spec fn spec_wait_result(p: ModelProcess) -> Result<ExitStatus, TermError> {
    if p.wait_fails {
        Err(TermError::WaitFailure)
    } else {
        Ok(p.status)
    }
}

/// Decides the race for a concrete exit latency and deadline.
pub fn race_exit_wins(exit_at: u64, deadline: u64) -> (r: bool)
    ensures
        r == spec_exit_wins(exit_at, deadline),
{
    exit_at <= deadline
}

/// The event the race produces for this process and deadline.
pub fn race_event(p: &ModelProcess, deadline: u64) -> (e: Event)
    ensures
        e == spec_race_event(*p, deadline),
{
    if p.wait_fails {
        Event::WaitFailed
    } else if race_exit_wins(p.exit_at, deadline) {
        Event::ExitObserved(p.status)
    } else {
        Event::TimerElapsed
    }
}

/// The event the forced kill produces for this process.
pub fn kill_event(p: &ModelProcess) -> (e: Event)
    ensures
        e == spec_kill_event(*p),
{
    if p.kill_fails {
        Event::KillFailed
    } else {
        Event::KillAcked
    }
}

/// One whole bounded termination call on a modeled process: request the
/// graceful exit, race the exit against a timer of length `deadline`, and
/// on timeout kill, the kill acknowledgment arriving `kill_latency` units
/// after the deadline. Returns the caller-visible result and the wall
/// time the call took, both pinned exactly by the model.
pub fn simulate_terminate_timeout(p: &ModelProcess, deadline: u64, kill_latency: u64) -> (r: (
    Result<TerminationOutcome, TermError>,
    u64,
))
    requires
        deadline + kill_latency <= u64::MAX,
    ensures
        r.0 == spec_timeout_result(*p, deadline),
        r.1 == spec_timeout_elapsed(*p, deadline, kill_latency),
{
    let mut c = Controller::new();
    // The first action is the graceful request itself; it is fire-and-forget
    // and best-effort, so the model has nothing further to do with it.
    c.on_event(Event::RequestExit);
    let race = race_event(p, deadline);
    match c.on_event(race) {
        Action::ReportExited(st) => (Ok(TerminationOutcome::Exited(st)), p.exit_at),
        Action::ReportError(err) => (Err(err), 0),
        Action::IssueKill => {
            let ack = kill_event(p);
            match c.on_event(ack) {
                Action::ReportKilled => (
                    Ok(TerminationOutcome::KilledAfterTimeout),
                    deadline + kill_latency,
                ),
                Action::ReportError(err) => (Err(err), deadline + kill_latency),
                _ => unreached(),
            }
        },
        _ => unreached(),
    }
}

/// One whole unbounded termination call on a modeled process: request the
/// graceful exit, then wait for the exit with no deadline. Returns the
/// caller-visible result and the wall time the call took.
pub fn simulate_terminate_wait(p: &ModelProcess) -> (r: (Result<ExitStatus, TermError>, u64))
    ensures
        r.0 == spec_wait_result(*p),
        r.1 == (if p.wait_fails { 0u64 } else { p.exit_at }),
{
    let mut c = Controller::new();
    c.on_event(Event::RequestExit);
    let wait = if p.wait_fails {
        Event::WaitFailed
    } else {
        Event::ExitObserved(p.status)
    };
    match c.on_event(wait) {
        Action::ReportExited(st) => (Ok(st), p.exit_at),
        Action::ReportError(err) => (Err(err), 0),
        _ => unreached(),
    }
}

/// What a bounded group termination call returns. It mirrors the single
/// process call, except that the forced kill is a group-wide broadcast
/// whose errors are swallowed: forceful cleanup never fails the caller's
/// shutdown sequence, so the kill branch always reports the kill.
pub open spec fn spec_group_timeout_result(p: ModelProcess, deadline: u64) -> Result<
    TerminationOutcome,
    TermError,
> {
    if p.wait_fails {
        Err(TermError::WaitFailure)
    } else if spec_exit_wins(p.exit_at, deadline) {
        Ok(TerminationOutcome::Exited(p.status))
    } else {
        Ok(TerminationOutcome::KilledAfterTimeout)
    }
}

/// One whole bounded group termination call on a modeled process — the
/// originally spawned member, the only one the protocol waits on; the
/// rest of the group is reached solely through the broadcast requests.
/// The group kill is best-effort, so `p.kill_fails` has no bearing here.
pub fn simulate_terminate_group_timeout(p: &ModelProcess, deadline: u64, kill_latency: u64) -> (r: (
    Result<TerminationOutcome, TermError>,
    u64,
))
    requires
        deadline + kill_latency <= u64::MAX,
    ensures
        r.0 == spec_group_timeout_result(*p, deadline),
        r.1 == spec_timeout_elapsed(*p, deadline, kill_latency),
{
    let mut c = Controller::new();
    c.on_event(Event::RequestExit);
    let race = race_event(p, deadline);
    match c.on_event(race) {
        Action::ReportExited(st) => (Ok(TerminationOutcome::Exited(st)), p.exit_at),
        Action::ReportError(err) => (Err(err), 0),
        Action::IssueKill => {
            // The group-wide kill swallows its own errors, so the driver
            // always acknowledges it.
            match c.on_event(Event::KillAcked) {
                Action::ReportKilled => (
                    Ok(TerminationOutcome::KilledAfterTimeout),
                    deadline + kill_latency,
                ),
                _ => unreached(),
            }
        },
        _ => unreached(),
    }
}

/// A group termination call never reports a kill failure: the group-wide
/// forced kill is fire-and-forget and its errors are swallowed.
pub proof fn lemma_group_kill_never_fails(p: ModelProcess, deadline: u64)
    ensures
        spec_group_timeout_result(p, deadline) != Err::<TerminationOutcome, TermError>(
            TermError::KillFailure,
        ),
{
}

/// A process that exits within the deadline of being signaled yields its
/// real exit status, and the call takes the process's own exit latency —
/// not the deadline.
pub proof fn lemma_exit_within_deadline(p: ModelProcess, deadline: u64, kill_latency: u64)
    requires
        !p.wait_fails,
        p.exit_at <= deadline,
    ensures
        spec_timeout_result(p, deadline) == Ok::<TerminationOutcome, TermError>(
            TerminationOutcome::Exited(p.status),
        ),
        spec_timeout_elapsed(p, deadline, kill_latency) == p.exit_at,
{
}

/// A process that ignores the graceful request and outlives the deadline
/// is forcibly killed: the call reports the kill and takes the deadline
/// plus the kill acknowledgment latency, never the process's own runtime.
pub proof fn lemma_timeout_forces_kill(p: ModelProcess, deadline: u64, kill_latency: u64)
    requires
        !p.wait_fails,
        !p.kill_fails,
        p.exit_at > deadline,
    ensures
        spec_timeout_result(p, deadline) == Ok::<TerminationOutcome, TermError>(
            TerminationOutcome::KilledAfterTimeout,
        ),
        spec_timeout_elapsed(p, deadline, kill_latency) == deadline + kill_latency,
{
}

/// A zero deadline reports a forced kill at once — the call takes only
/// the kill acknowledgment latency — unless the process's exit was
/// already observable when the call was made.
pub proof fn lemma_zero_deadline(p: ModelProcess, kill_latency: u64)
    requires
        !p.wait_fails,
        !p.kill_fails,
    ensures
        p.exit_at > 0 ==> spec_timeout_result(p, 0) == Ok::<TerminationOutcome, TermError>(
            TerminationOutcome::KilledAfterTimeout,
        ),
        p.exit_at > 0 ==> spec_timeout_elapsed(p, 0, kill_latency) == kill_latency,
        p.exit_at == 0 ==> spec_timeout_result(p, 0) == Ok::<TerminationOutcome, TermError>(
            TerminationOutcome::Exited(p.status),
        ),
{
}

/// The tie-break rule: an exit observable at the very instant the deadline
/// elapses is still reported as a graceful exit — the kill never races
/// ahead of an already-completed wait.
pub proof fn lemma_tie_prefers_exit(p: ModelProcess, deadline: u64)
    requires
        !p.wait_fails,
        p.exit_at == deadline,
    ensures
        spec_timeout_result(p, deadline) == Ok::<TerminationOutcome, TermError>(
            TerminationOutcome::Exited(p.status),
        ),
{
}

} // verus!
