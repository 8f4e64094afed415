//! The close-message escalation ladder.
//!
//! On the platform family without POSIX-style signals, a graceful request
//! is delivered by trying, in a fixed order, until one step reports
//! success: post a close message to the process's primary thread, send
//! the same close request synchronously to its top-level window, and
//! finally terminate the process unconditionally. There is no wait
//! between steps: each is attempted exactly when the previous one did
//! not report success, so the ladder is deterministic and total — an
//! unresponsive process always reaches the unconditional step.

use vstd::prelude::*;

verus! {

/// One rung of the ladder, in escalation order.
#[derive(Clone, Copy, Debug, PartialEq, Eq, Structural)]
pub enum EscalationStep {
    /// Post a graceful close message to the process's primary thread.
    PostCloseToThread,
    /// Send the same close request synchronously to the process's
    /// top-level window, if any.
    SendCloseToWindow,
    /// Unconditionally terminate the process.
    ForceTerminate,
}

/// Where the ladder begins.
pub open spec fn spec_first_step() -> EscalationStep {
    EscalationStep::PostCloseToThread
}

/// The rung after `s`, given whether `s` reported success: a success ends
/// the ladder at once, and nothing follows the unconditional step.
pub open spec fn spec_next_step(s: EscalationStep, succeeded: bool) -> Option<EscalationStep> {
    if succeeded {
        None
    } else {
        match s {
            EscalationStep::PostCloseToThread => Some(EscalationStep::SendCloseToWindow),
            EscalationStep::SendCloseToWindow => Some(EscalationStep::ForceTerminate),
            EscalationStep::ForceTerminate => None,
        }
    }
}

/// The rungs attempted, in order, when the thread message reports
/// `post_ok` and the window message reports `send_ok`: each rung is tried
/// exactly when every earlier one failed.
pub open spec fn spec_attempts(post_ok: bool, send_ok: bool) -> Seq<EscalationStep> {
    if post_ok {
        seq![EscalationStep::PostCloseToThread]
    } else if send_ok {
        seq![EscalationStep::PostCloseToThread, EscalationStep::SendCloseToWindow]
    } else {
        seq![
            EscalationStep::PostCloseToThread,
            EscalationStep::SendCloseToWindow,
            EscalationStep::ForceTerminate,
        ]
    }
}

/// The first rung to attempt.
pub fn first_escalation_step() -> (r: EscalationStep)
    ensures
        r == spec_first_step(),
{
    EscalationStep::PostCloseToThread
}

/// Decides the rung after `s` from whether `s` reported success.
pub fn next_escalation_step(s: EscalationStep, succeeded: bool) -> (r: Option<EscalationStep>)
    ensures
        r == spec_next_step(s, succeeded),
{
    if succeeded {
        None
    } else {
        match s {
            EscalationStep::PostCloseToThread => Some(EscalationStep::SendCloseToWindow),
            EscalationStep::SendCloseToWindow => Some(EscalationStep::ForceTerminate),
            EscalationStep::ForceTerminate => None,
        }
    }
}

/// Replays the whole ladder for the reported outcomes of the two close
/// messages, by iterating [`next_escalation_step`] from the first rung,
/// and returns the rungs attempted in order.
pub fn escalation_attempts(post_ok: bool, send_ok: bool) -> (r: Vec<EscalationStep>)
    ensures
        r@ == spec_attempts(post_ok, send_ok),
{
    let mut attempts: Vec<EscalationStep> = Vec::new();
    let mut cur: Option<EscalationStep> = Some(first_escalation_step());
    while cur.is_some()
        invariant
            ({
                ||| (attempts@ =~= Seq::<EscalationStep>::empty() && cur == Some(
                    EscalationStep::PostCloseToThread,
                ))
                ||| (attempts@ =~= seq![EscalationStep::PostCloseToThread] && cur == Some(
                    EscalationStep::SendCloseToWindow,
                ) && !post_ok)
                ||| (attempts@ =~= seq![
                    EscalationStep::PostCloseToThread,
                    EscalationStep::SendCloseToWindow,
                ] && cur == Some(EscalationStep::ForceTerminate) && !post_ok && !send_ok)
                ||| (attempts@ =~= spec_attempts(post_ok, send_ok) && cur is None)
            }),
        decreases 4int - attempts@.len(),
    {
        let step = match cur {
            Some(s) => s,
            None => unreached(),
        };
        attempts.push(step);
        let succeeded = match step {
            EscalationStep::PostCloseToThread => post_ok,
            EscalationStep::SendCloseToWindow => send_ok,
            // The unconditional step ends the ladder whatever it reports.
            EscalationStep::ForceTerminate => true,
        };
        cur = next_escalation_step(step, succeeded);
    }
    attempts
}

/// The ladder is total: it attempts at most three rungs, always starts
/// with the thread message, and when neither close message reports
/// success it ends at the unconditional termination — so an unresponsive
/// process is always terminated.
pub proof fn lemma_escalation_total(post_ok: bool, send_ok: bool)
    ensures
        1 <= spec_attempts(post_ok, send_ok).len() <= 3,
        spec_attempts(post_ok, send_ok)[0] == EscalationStep::PostCloseToThread,
        !post_ok && !send_ok ==> spec_attempts(post_ok, send_ok).last()
            == EscalationStep::ForceTerminate,
{
}

/// The ladder stops at the first reported success: the window message is
/// attempted exactly when the thread message failed, and the unconditional
/// termination exactly when both close messages failed.
pub proof fn lemma_escalation_stops_at_first_success(post_ok: bool, send_ok: bool)
    ensures
        spec_attempts(post_ok, send_ok).contains(EscalationStep::SendCloseToWindow) <==> !post_ok,
        spec_attempts(post_ok, send_ok).contains(EscalationStep::ForceTerminate) <==> (!post_ok
            && !send_ok),
{
    let a = spec_attempts(post_ok, send_ok);
    if !post_ok {
        assert(a[1] == EscalationStep::SendCloseToWindow);
        assert(a.contains(EscalationStep::SendCloseToWindow));
        if !send_ok {
            assert(a[2] == EscalationStep::ForceTerminate);
            assert(a.contains(EscalationStep::ForceTerminate));
        } else {
            assert(forall|i: int| 0 <= i < a.len() ==> a[i] != EscalationStep::ForceTerminate);
        }
    } else {
        assert(forall|i: int| 0 <= i < a.len() ==> a[i] != EscalationStep::SendCloseToWindow);
        assert(forall|i: int| 0 <= i < a.len() ==> a[i] != EscalationStep::ForceTerminate);
    }
}

} // verus!
