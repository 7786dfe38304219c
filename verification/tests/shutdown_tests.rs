use backend_supervisor::event::{Action, Event};
use backend_supervisor::process::ProcessHandle;
use backend_supervisor::shutdown::{exit_watch, ExitWatch, Pending, ShutdownCoordinator, ShutdownPhase};

const CHILD: ProcessHandle = ProcessHandle { id: 5 };

#[test]
fn coordinator_begins_inactive() {
    let c = ShutdownCoordinator::new();
    assert_eq!(c.phase(), ShutdownPhase::Inactive);
    assert!(!c.is_complete());
}

#[test]
fn coordinator_asks_a_child_to_exit() {
    let mut c = ShutdownCoordinator::new();
    let action = c.request(Some(CHILD), Pending::Nothing, 2_000);
    assert_eq!(action, Action::Terminate { handle: CHILD, grace_ms: 2_000 });
    assert_eq!(c.phase(), ShutdownPhase::Terminating);
}

#[test]
fn coordinator_without_child_completes_at_once() {
    let mut c = ShutdownCoordinator::new();
    assert_eq!(c.request(None, Pending::Nothing, 2_000), Action::Nothing);
    assert!(c.is_complete());

    let mut waiting = ShutdownCoordinator::new();
    assert_eq!(waiting.request(None, Pending::Backoff, 2_000), Action::CancelRestart);
    assert!(waiting.is_complete());
}

#[test]
fn coordinator_awaits_a_launch_in_flight() {
    let mut c = ShutdownCoordinator::new();
    assert_eq!(c.request(None, Pending::Launch, 2_000), Action::CancelLaunch);
    assert_eq!(c.phase(), ShutdownPhase::AwaitingLaunch);
    assert_eq!(
        c.launch_resolved(Some(CHILD), 2_000),
        Action::Terminate { handle: CHILD, grace_ms: 2_000 }
    );
    assert_eq!(c.phase(), ShutdownPhase::Terminating);

    let mut failed = ShutdownCoordinator::new();
    failed.request(None, Pending::Launch, 2_000);
    assert_eq!(failed.launch_resolved(None, 2_000), Action::Nothing);
    assert!(failed.is_complete());
}

#[test]
fn coordinator_ignores_a_launch_result_it_did_not_await() {
    let mut c = ShutdownCoordinator::new();
    assert_eq!(c.launch_resolved(Some(CHILD), 2_000), Action::Nothing);
    assert_eq!(c.phase(), ShutdownPhase::Inactive);
}

#[test]
fn coordinator_completes_when_the_child_exits_in_time() {
    let mut c = ShutdownCoordinator::new();
    c.request(Some(CHILD), Pending::Nothing, 2_000);
    c.child_exited();
    assert!(c.is_complete());
    assert_eq!(c.grace_elapsed(Some(CHILD)), Action::Nothing);
    assert!(c.is_complete());
}

#[test]
fn coordinator_kills_after_the_grace_period() {
    let mut c = ShutdownCoordinator::new();
    c.request(Some(CHILD), Pending::Nothing, 2_000);
    assert_eq!(c.grace_elapsed(Some(CHILD)), Action::ForceKill(CHILD));
    assert_eq!(c.phase(), ShutdownPhase::Killing);
    assert_eq!(c.grace_elapsed(Some(CHILD)), Action::Nothing);
    assert_eq!(c.phase(), ShutdownPhase::Killing);
    c.child_exited();
    assert!(c.is_complete());
}

#[test]
fn coordinator_acts_on_the_first_request_only() {
    let mut c = ShutdownCoordinator::new();
    c.request(Some(CHILD), Pending::Nothing, 2_000);
    assert_eq!(c.request(Some(CHILD), Pending::Nothing, 2_000), Action::Nothing);
    assert_eq!(c.phase(), ShutdownPhase::Terminating);
    c.child_exited();
    assert_eq!(c.request(None, Pending::Nothing, 2_000), Action::Nothing);
    assert_eq!(c.request(Some(CHILD), Pending::Launch, 2_000), Action::Nothing);
    assert!(c.is_complete());
}

#[test]
fn coordinator_ignores_exit_and_grace_before_a_request() {
    let mut c = ShutdownCoordinator::new();
    c.child_exited();
    assert_eq!(c.phase(), ShutdownPhase::Inactive);
    assert_eq!(c.grace_elapsed(Some(CHILD)), Action::Nothing);
    assert_eq!(c.phase(), ShutdownPhase::Inactive);
}

#[test]
fn exit_watch_reports_an_exit_whenever_it_is_seen() {
    assert_eq!(exit_watch(CHILD, 2_000, 0, true), ExitWatch::Report(Event::ChildExited(CHILD)));
    assert_eq!(exit_watch(CHILD, 2_000, 1_999, true), ExitWatch::Report(Event::ChildExited(CHILD)));
    assert_eq!(exit_watch(CHILD, 2_000, 5_000, true), ExitWatch::Report(Event::ChildExited(CHILD)));
}

#[test]
fn exit_watch_waits_no_longer_than_the_grace_period() {
    assert_eq!(exit_watch(CHILD, 2_000, 0, false), ExitWatch::Wait { at_most_ms: 2_000 });
    assert_eq!(exit_watch(CHILD, 2_000, 1_250, false), ExitWatch::Wait { at_most_ms: 750 });
    assert_eq!(exit_watch(CHILD, 2_000, 1_999, false), ExitWatch::Wait { at_most_ms: 1 });
}

#[test]
fn exit_watch_reports_the_end_of_the_grace_period() {
    assert_eq!(exit_watch(CHILD, 2_000, 2_000, false), ExitWatch::Report(Event::GraceElapsed));
    assert_eq!(exit_watch(CHILD, 2_000, 9_000, false), ExitWatch::Report(Event::GraceElapsed));
    assert_eq!(exit_watch(CHILD, 0, 0, false), ExitWatch::Report(Event::GraceElapsed));
}
