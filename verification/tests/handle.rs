//! The trusted handle boundary, exercised on a real child process.

use tokio_process_terminate::child::plan_kill_group;
use tokio_process_terminate::child::plan_terminate;
use tokio_process_terminate::child::plan_terminate_group;
use tokio_process_terminate::signal::SignalKind;
use tokio_process_terminate::signal::SignalRequest;
use tokio_process_terminate::signal::SignalTarget;

fn runtime() -> tokio::runtime::Runtime {
    tokio::runtime::Builder::new_current_thread()
        .enable_all()
        .build()
        .unwrap()
}

#[test]
fn plans_address_the_live_child_id() {
    let rt = runtime();
    rt.block_on(async {
        let mut child = tokio::process::Command::new("sleep")
            .arg("5")
            .spawn()
            .unwrap();
        let pid = child.id().unwrap();
        assert_eq!(
            plan_terminate(&child),
            Some(SignalRequest {
                kind: SignalKind::Graceful,
                target: SignalTarget::Process(pid),
            })
        );
        assert_eq!(
            plan_terminate_group(&child),
            Some(SignalRequest {
                kind: SignalKind::Graceful,
                target: SignalTarget::Group(pid),
            })
        );
        assert_eq!(
            plan_kill_group(&child),
            Some(SignalRequest {
                kind: SignalKind::Forceful,
                target: SignalTarget::Group(pid),
            })
        );
        child.kill().await.unwrap();
    });
}

#[test]
fn plans_skip_a_reaped_child() {
    let rt = runtime();
    rt.block_on(async {
        let mut child = tokio::process::Command::new("sleep")
            .arg("0")
            .spawn()
            .unwrap();
        child.wait().await.unwrap();
        // Once the child is reaped no id remains, and every request is skipped.
        assert_eq!(child.id(), None);
        assert_eq!(plan_terminate(&child), None);
        assert_eq!(plan_terminate_group(&child), None);
        assert_eq!(plan_kill_group(&child), None);
    });
}
