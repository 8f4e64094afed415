//! The termination protocol as an explicit state machine.
//!
//! One bounded termination call is a single pass through this machine:
//! the graceful request is sent once, the process's exit is raced against
//! a timer, and when the timer wins a forced kill is issued. The driver
//! (whatever concurrency primitive hosts the call) observes events and
//! feeds them to a [`Controller`]; each step hands back the one action
//! the driver must perform next.

use vstd::prelude::*;

use crate::status::ExitStatus;
use crate::status::TermError;
use crate::status::TerminationOutcome;

verus! {

/// The phase a termination call is in.
///
/// `Exited`, `TimedOutKilled` and `Failed` are terminal: the handle the
/// call was made for must not be reused once one of them is reached.
#[derive(Clone, Copy, Debug, PartialEq, Eq, Structural)]
pub enum State {
    /// No graceful request has been issued yet.
    Running,
    /// The graceful request was issued; the exit is being raced against the timer.
    AwaitingExit,
    /// The timer won the race; a forced kill was issued and its acknowledgment is awaited.
    Killing,
    /// The process's exit was observed before the deadline.
    Exited,
    /// The deadline elapsed and the forced kill was acknowledged.
    TimedOutKilled,
    /// The wait or the kill primitive itself failed; the call ends with a hard error.
    Failed,
}

/// What the driver observed since the last step.
#[derive(Clone, Copy, Debug, PartialEq, Eq, Structural)]
pub enum Event {
    /// The caller asked for a graceful termination.
    RequestExit,
    /// The wait primitive reported that the process ended, with this status.
    ExitObserved(ExitStatus),
    /// The wait primitive itself failed.
    WaitFailed,
    /// The timer elapsed before the exit was observed.
    TimerElapsed,
    /// The forced-kill request was accepted (not: the process is known dead).
    KillAcked,
    /// The forced-kill primitive failed.
    KillFailed,
}

/// What the driver must do after a step.
#[derive(Clone, Copy, Debug, PartialEq, Eq, Structural)]
pub enum Action {
    /// Send the platform's graceful shutdown request, fire-and-forget.
    SendGracefulSignal,
    /// Issue the unconditional kill.
    IssueKill,
    /// The call is over: report the process's own exit status.
    ReportExited(ExitStatus),
    /// The call is over: report that the process was killed after the deadline.
    ReportKilled,
    /// The call is over: report a hard error.
    ReportError(TermError),
    /// Nothing to do.
    NoOp,
}

/// Whether `s` is a terminal state, after which every event is ignored.
pub open spec fn is_terminal(s: State) -> bool {
    s is Exited || s is TimedOutKilled || s is Failed
}

/// The transition table of the protocol.
///
/// It is total: an event that a state does not expect leaves the state
/// unchanged and demands nothing of the driver. In particular a second
/// `RequestExit` before a terminal state is a no-op, and terminal states
/// absorb every event.
pub open spec fn spec_step(s: State, e: Event) -> (State, Action) {
    match (s, e) {
        (State::Running, Event::RequestExit) => (State::AwaitingExit, Action::SendGracefulSignal),
        (State::AwaitingExit, Event::ExitObserved(st)) => (State::Exited, Action::ReportExited(st)),
        (State::AwaitingExit, Event::WaitFailed) => (
            State::Failed,
            Action::ReportError(TermError::WaitFailure),
        ),
        (State::AwaitingExit, Event::TimerElapsed) => (State::Killing, Action::IssueKill),
        (State::Killing, Event::KillAcked) => (State::TimedOutKilled, Action::ReportKilled),
        (State::Killing, Event::KillFailed) => (
            State::Failed,
            Action::ReportError(TermError::KillFailure),
        ),
        _ => (s, Action::NoOp),
    }
}

/// The state reached after feeding `events` in order, starting from `s`.
pub open spec fn run_state(s: State, events: Seq<Event>) -> State
    decreases events.len(),
{
    if events.len() == 0 {
        s
    } else {
        run_state(spec_step(s, events[0]).0, events.drop_first())
    }
}

/// The actions demanded of the driver by feeding `events` in order,
/// starting from `s`.
pub open spec fn run_actions(s: State, events: Seq<Event>) -> Seq<Action>
    decreases events.len(),
{
    if events.len() == 0 {
        Seq::<Action>::empty()
    } else {
        seq![spec_step(s, events[0]).1] + run_actions(
            spec_step(s, events[0]).0,
            events.drop_first(),
        )
    }
}

/// One termination call's state, owned by that call alone: two concurrent
/// calls on one handle are outside the protocol, so each call gets its own
/// controller.
pub struct Controller {
    pub state: State,
}

impl Controller {
    /// A fresh controller for one termination call.
    pub fn new() -> (c: Controller)
        ensures
            c.state == State::Running,
    {
        Controller { state: State::Running }
    }

    /// Feeds one observed event and returns the action the driver must
    /// perform before observing the next one.
    pub fn on_event(&mut self, e: Event) -> (a: Action)
        ensures
            final(self).state == spec_step(old(self).state, e).0,
            a == spec_step(old(self).state, e).1,
    {
        let (s, a) = step(self.state, e);
        self.state = s;
        a
    }

    /// Feeds a whole recorded sequence of events in order, discarding the
    /// actions; useful to replay a driver's log against the transition table.
    pub fn on_events(&mut self, events: &Vec<Event>)
        ensures
            final(self).state == run_state(old(self).state, events@),
    {
        let ghost start = self.state;
        let mut idx: usize = 0;
        while idx < events.len()
            invariant
                0 <= idx <= events@.len(),
                run_state(start, events@.take(idx as int)) == self.state,
            decreases events@.len() - idx,
        {
            proof {
                lemma_run_state_snoc(start, events@.take(idx as int), events@[idx as int]);
                assert(events@.take(idx as int).push(events@[idx as int]) =~= events@.take(
                    idx as int + 1,
                ));
            }
            self.on_event(events[idx]);
            idx += 1;
        }
        proof {
            assert(events@.take(events@.len() as int) =~= events@);
        }
    }
}

/// One transition of the protocol, exactly as the table gives it.
pub fn step(s: State, e: Event) -> (r: (State, Action))
    ensures
        r == spec_step(s, e),
{
    match (s, e) {
        (State::Running, Event::RequestExit) => (State::AwaitingExit, Action::SendGracefulSignal),
        (State::AwaitingExit, Event::ExitObserved(st)) => (State::Exited, Action::ReportExited(st)),
        (State::AwaitingExit, Event::WaitFailed) => (
            State::Failed,
            Action::ReportError(TermError::WaitFailure),
        ),
        (State::AwaitingExit, Event::TimerElapsed) => (State::Killing, Action::IssueKill),
        (State::Killing, Event::KillAcked) => (State::TimedOutKilled, Action::ReportKilled),
        (State::Killing, Event::KillFailed) => (
            State::Failed,
            Action::ReportError(TermError::KillFailure),
        ),
        _ => (s, Action::NoOp),
    }
}

/// Interprets an action as the caller-visible end of a bounded termination
/// call: `Some` exactly for the three reporting actions.
pub fn outcome_of_action(a: Action) -> (r: Option<Result<TerminationOutcome, TermError>>)
    ensures
        r == spec_outcome_of_action(a),
{
    match a {
        Action::ReportExited(st) => Some(Ok(TerminationOutcome::Exited(st))),
        Action::ReportKilled => Some(Ok(TerminationOutcome::KilledAfterTimeout)),
        Action::ReportError(err) => Some(Err(err)),
        _ => None,
    }
}

/// What each reporting action means to the caller.
pub open spec fn spec_outcome_of_action(a: Action) -> Option<
    Result<TerminationOutcome, TermError>,
> {
    match a {
        Action::ReportExited(st) => Some(Ok(TerminationOutcome::Exited(st))),
        Action::ReportKilled => Some(Ok(TerminationOutcome::KilledAfterTimeout)),
        Action::ReportError(err) => Some(Err(err)),
        _ => None,
    }
}

/// Terminal states absorb every event: once a call has ended, nothing the
/// driver observes changes the state or demands an action.
pub proof fn lemma_terminal_absorbs(s: State, e: Event)
    requires
        is_terminal(s),
    ensures
        spec_step(s, e) == (s, Action::NoOp),
{
}

/// The ordering guarantees of one call: the graceful request happens
/// before the race begins — in `Running` no race or kill event is
/// accepted — and the killed outcome is only ever reported after the
/// kill was issued, that is, from `Killing` on its acknowledgment.
pub proof fn lemma_protocol_ordering(s: State, e: Event)
    ensures
        s is Running && e != Event::RequestExit ==> spec_step(s, e) == (s, Action::NoOp),
        spec_step(s, e).1 == Action::ReportKilled ==> s is Killing && e is KillAcked,
{
}

/// How far a call has progressed through the machine.
pub open spec fn spec_rank(s: State) -> int {
    match s {
        State::Running => 0,
        State::AwaitingExit => 1,
        State::Killing => 2,
        State::Exited => 3,
        State::TimedOutKilled => 3,
        State::Failed => 3,
    }
}

/// The protocol never retries: no step moves the state backward, and the
/// graceful request and the kill are each emitted only by the single
/// transition that strictly leaves its source state — so one run makes
/// one graceful attempt, one timed wait and one kill, and the caller
/// decides about retrying at a higher level.
pub proof fn lemma_no_retries(s: State, e: Event)
    ensures
        spec_rank(spec_step(s, e).0) >= spec_rank(s),
        spec_step(s, e).1 == Action::SendGracefulSignal ==> s is Running && spec_rank(
            spec_step(s, e).0,
        ) > spec_rank(s),
        spec_step(s, e).1 == Action::IssueKill ==> s is AwaitingExit && spec_rank(
            spec_step(s, e).0,
        ) > spec_rank(s),
{
}

/// Requesting a graceful exit is idempotent: after one `RequestExit`, a
/// second one leaves the state exactly where it was and emits no action,
/// so its externally observable effect is that of the first alone.
pub proof fn lemma_request_exit_idempotent(s: State)
    ensures
        ({
            let first = spec_step(s, Event::RequestExit);
            let second = spec_step(first.0, Event::RequestExit);
            second.0 == first.0 && second.1 == Action::NoOp
        }),
{
}

/// Unfolds one step at the end of a run.
pub proof fn lemma_run_state_snoc(s: State, events: Seq<Event>, e: Event)
    ensures
        run_state(s, events.push(e)) == spec_step(run_state(s, events), e).0,
    decreases events.len(),
{
    let p = events.push(e);
    if events.len() == 0 {
        assert(p[0] == e);
        assert(p.drop_first() =~= Seq::<Event>::empty());
        assert(run_state(s, p) == run_state(spec_step(s, e).0, p.drop_first()));
        assert(run_state(spec_step(s, e).0, p.drop_first()) == spec_step(s, e).0);
        assert(run_state(s, events) == s);
    } else {
        assert(p[0] == events[0]);
        assert(p.drop_first() =~= events.drop_first().push(e));
        assert(run_state(s, p) == run_state(spec_step(s, events[0]).0, p.drop_first()));
        lemma_run_state_snoc(spec_step(s, events[0]).0, events.drop_first(), e);
        assert(run_state(s, events) == run_state(spec_step(s, events[0]).0, events.drop_first()));
    }
}

/// The trace form of idempotence: a duplicated `RequestExit` changes the
/// state reached by any continuation of the run not at all.
pub proof fn lemma_duplicate_request_exit(s: State, rest: Seq<Event>)
    ensures
        run_state(s, seq![Event::RequestExit, Event::RequestExit] + rest) == run_state(
            s,
            seq![Event::RequestExit] + rest,
        ),
{
    let s1 = spec_step(s, Event::RequestExit).0;
    let two = seq![Event::RequestExit, Event::RequestExit] + rest;
    let one = seq![Event::RequestExit] + rest;
    assert(two[0] == Event::RequestExit);
    assert(two.drop_first() =~= one);
    assert(one[0] == Event::RequestExit);
    assert(one.drop_first() =~= rest);
    lemma_request_exit_idempotent(s);
    assert(run_state(s, two) == run_state(s1, one));
    assert(run_state(s1, one) == run_state(spec_step(s1, Event::RequestExit).0, rest));
    assert(run_state(s, one) == run_state(s1, rest));
}

/// The action-trace form of idempotence: with a duplicated `RequestExit`
/// the run demands of the driver exactly what it demands without it, with
/// one `NoOp` — a demand of nothing — inserted after the first request.
pub proof fn lemma_duplicate_request_exit_actions(s: State, rest: Seq<Event>)
    ensures
        run_actions(s, seq![Event::RequestExit, Event::RequestExit] + rest) =~= seq![
            spec_step(s, Event::RequestExit).1,
            Action::NoOp,
        ] + run_actions(spec_step(s, Event::RequestExit).0, rest),
        run_actions(s, seq![Event::RequestExit] + rest) =~= seq![
            spec_step(s, Event::RequestExit).1,
        ] + run_actions(spec_step(s, Event::RequestExit).0, rest),
{
    let s1 = spec_step(s, Event::RequestExit).0;
    let two = seq![Event::RequestExit, Event::RequestExit] + rest;
    let one = seq![Event::RequestExit] + rest;
    assert(two[0] == Event::RequestExit);
    assert(two.drop_first() =~= one);
    assert(one[0] == Event::RequestExit);
    assert(one.drop_first() =~= rest);
    lemma_request_exit_idempotent(s);
    assert(run_actions(s, two) == seq![spec_step(s, Event::RequestExit).1] + run_actions(s1, one));
    assert(run_actions(s1, one) == seq![Action::NoOp] + run_actions(s1, rest));
    assert(run_actions(s, one) == seq![spec_step(s, Event::RequestExit).1] + run_actions(s1, rest));
}

} // verus!
