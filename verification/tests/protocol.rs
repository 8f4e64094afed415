//! The termination protocol, driven on modeled processes.

use tokio_process_terminate::machine::Action;
use tokio_process_terminate::machine::Controller;
use tokio_process_terminate::machine::Event;
use tokio_process_terminate::machine::State;
use tokio_process_terminate::machine::outcome_of_action;
use tokio_process_terminate::machine::step;
use tokio_process_terminate::race::ModelProcess;
use tokio_process_terminate::race::race_exit_wins;
use tokio_process_terminate::race::simulate_terminate_group_timeout;
use tokio_process_terminate::race::simulate_terminate_timeout;
use tokio_process_terminate::race::simulate_terminate_wait;
use tokio_process_terminate::status::ExitStatus;
use tokio_process_terminate::status::TermError;
use tokio_process_terminate::status::TerminationOutcome;

fn responsive(exit_at: u64) -> ModelProcess {
    ModelProcess {
        exit_at,
        status: ExitStatus::Signaled(15),
        wait_fails: false,
        kill_fails: false,
    }
}

#[test]
fn exit_before_deadline_returns_real_status() {
    let p = ModelProcess {
        exit_at: 3,
        status: ExitStatus::Code(7),
        wait_fails: false,
        kill_fails: false,
    };
    let (result, elapsed) = simulate_terminate_timeout(&p, 10, 1);
    assert_eq!(
        result,
        Ok(TerminationOutcome::Exited(ExitStatus::Code(7)))
    );
    // The call takes the process's own exit latency, not the deadline.
    assert_eq!(elapsed, 3);
}

#[test]
fn timeout_is_bounded_by_deadline_plus_kill_latency() {
    // A process that ignores the graceful request and would run much longer.
    let p = responsive(1000);
    let (result, elapsed) = simulate_terminate_timeout(&p, 5, 1);
    assert_eq!(result, Ok(TerminationOutcome::KilledAfterTimeout));
    assert_eq!(elapsed, 6);
    assert!(elapsed <= 5 + 1);
    assert!(elapsed < 1000);
}

#[test]
fn zero_deadline_kills_immediately() {
    let p = responsive(1);
    let (result, elapsed) = simulate_terminate_timeout(&p, 0, 0);
    assert_eq!(result, Ok(TerminationOutcome::KilledAfterTimeout));
    assert_eq!(elapsed, 0);
}

#[test]
fn zero_deadline_keeps_an_already_observed_exit() {
    let p = responsive(0);
    let (result, elapsed) = simulate_terminate_timeout(&p, 0, 0);
    assert_eq!(
        result,
        Ok(TerminationOutcome::Exited(ExitStatus::Signaled(15)))
    );
    assert_eq!(elapsed, 0);
}

#[test]
fn tie_break_prefers_exit_over_kill() {
    // The exit becomes observable at the very instant the timer elapses.
    let p = responsive(5);
    let (result, _) = simulate_terminate_timeout(&p, 5, 1);
    assert_eq!(
        result,
        Ok(TerminationOutcome::Exited(ExitStatus::Signaled(15)))
    );
    assert!(race_exit_wins(5, 5));
    assert!(!race_exit_wins(6, 5));
}

#[test]
fn terminate_request_is_idempotent() {
    let mut once = Controller::new();
    let first = once.on_event(Event::RequestExit);
    assert_eq!(first, Action::SendGracefulSignal);

    let mut twice = Controller::new();
    twice.on_event(Event::RequestExit);
    let second = twice.on_event(Event::RequestExit);
    // The repeated request demands nothing of the driver...
    assert_eq!(second, Action::NoOp);
    // ...and leaves both controllers in the same state.
    assert_eq!(once.state, twice.state);
    assert_eq!(twice.state, State::AwaitingExit);
}

#[test]
fn duplicate_request_leaves_the_whole_run_unchanged() {
    let with_duplicate = vec![
        Event::RequestExit,
        Event::RequestExit,
        Event::ExitObserved(ExitStatus::Code(0)),
    ];
    let without = vec![
        Event::RequestExit,
        Event::ExitObserved(ExitStatus::Code(0)),
    ];
    let mut a = Controller::new();
    a.on_events(&with_duplicate);
    let mut b = Controller::new();
    b.on_events(&without);
    assert_eq!(a.state, b.state);
    assert_eq!(a.state, State::Exited);
}

#[test]
fn terminal_states_absorb_every_event() {
    let mut c = Controller::new();
    c.on_event(Event::RequestExit);
    c.on_event(Event::ExitObserved(ExitStatus::Code(0)));
    assert_eq!(c.state, State::Exited);
    for e in [
        Event::RequestExit,
        Event::TimerElapsed,
        Event::KillAcked,
        Event::KillFailed,
        Event::WaitFailed,
    ] {
        assert_eq!(c.on_event(e), Action::NoOp);
        assert_eq!(c.state, State::Exited);
    }
}

#[test]
fn wait_failure_is_a_hard_error() {
    let p = ModelProcess {
        exit_at: 3,
        status: ExitStatus::Code(0),
        wait_fails: true,
        kill_fails: false,
    };
    let (result, _) = simulate_terminate_timeout(&p, 10, 1);
    assert_eq!(result, Err(TermError::WaitFailure));
    let (wait_result, _) = simulate_terminate_wait(&p);
    assert_eq!(wait_result, Err(TermError::WaitFailure));
}

#[test]
fn kill_failure_is_a_hard_error() {
    let p = ModelProcess {
        exit_at: 1000,
        status: ExitStatus::Code(0),
        wait_fails: false,
        kill_fails: true,
    };
    let (result, _) = simulate_terminate_timeout(&p, 5, 1);
    assert_eq!(result, Err(TermError::KillFailure));
}

#[test]
fn group_kill_failure_is_swallowed() {
    // Same stubborn process, same failing kill primitive — but the group
    // kill is best-effort, so the call still reports the kill.
    let p = ModelProcess {
        exit_at: 1000,
        status: ExitStatus::Code(0),
        wait_fails: false,
        kill_fails: true,
    };
    let (result, elapsed) = simulate_terminate_group_timeout(&p, 5, 1);
    assert_eq!(result, Ok(TerminationOutcome::KilledAfterTimeout));
    assert_eq!(elapsed, 6);
}

#[test]
fn group_exit_is_detected_on_the_original_handle() {
    // The group variant waits only on the originally spawned member.
    let original = responsive(1);
    let (result, elapsed) = simulate_terminate_group_timeout(&original, 10, 1);
    assert_eq!(
        result,
        Ok(TerminationOutcome::Exited(ExitStatus::Signaled(15)))
    );
    assert_eq!(elapsed, 1);
}

#[test]
fn scenario_sleeping_process_terminated_promptly() {
    // A process that would sleep 10 time-units dies to the graceful signal
    // after 1: the unbounded call returns in under 2 units with a status
    // showing an abnormal termination, no exit code.
    let sleeper = responsive(1);
    let (result, elapsed) = simulate_terminate_wait(&sleeper);
    let status = result.unwrap();
    assert!(elapsed < 2);
    assert_eq!(status.code(), None);
    assert_eq!(status.signal(), Some(15));
}

#[test]
fn scenario_stubborn_process_killed_within_bound() {
    // A process that ignores graceful shutdown entirely, bounded by one
    // time-unit: the call reports the kill within one to two units, not
    // the process's full lifetime.
    let stubborn = responsive(10);
    let (result, elapsed) = simulate_terminate_timeout(&stubborn, 1, 1);
    assert_eq!(result, Ok(TerminationOutcome::KilledAfterTimeout));
    assert!(1 <= elapsed && elapsed <= 2);
}

#[test]
fn step_follows_the_transition_table() {
    assert_eq!(
        step(State::Running, Event::RequestExit),
        (State::AwaitingExit, Action::SendGracefulSignal)
    );
    assert_eq!(
        step(State::AwaitingExit, Event::TimerElapsed),
        (State::Killing, Action::IssueKill)
    );
    assert_eq!(
        step(State::Killing, Event::KillAcked),
        (State::TimedOutKilled, Action::ReportKilled)
    );
    assert_eq!(
        step(State::Killing, Event::KillFailed),
        (State::Failed, Action::ReportError(TermError::KillFailure))
    );
    assert_eq!(
        step(State::AwaitingExit, Event::WaitFailed),
        (State::Failed, Action::ReportError(TermError::WaitFailure))
    );
    // An event a state does not expect changes nothing.
    assert_eq!(
        step(State::Running, Event::KillAcked),
        (State::Running, Action::NoOp)
    );
}

#[test]
fn reporting_actions_map_to_caller_results() {
    assert_eq!(
        outcome_of_action(Action::ReportExited(ExitStatus::Code(3))),
        Some(Ok(TerminationOutcome::Exited(ExitStatus::Code(3))))
    );
    assert_eq!(
        outcome_of_action(Action::ReportKilled),
        Some(Ok(TerminationOutcome::KilledAfterTimeout))
    );
    assert_eq!(
        outcome_of_action(Action::ReportError(TermError::WaitFailure)),
        Some(Err(TermError::WaitFailure))
    );
    assert_eq!(outcome_of_action(Action::SendGracefulSignal), None);
    assert_eq!(outcome_of_action(Action::IssueKill), None);
    assert_eq!(outcome_of_action(Action::NoOp), None);
}
