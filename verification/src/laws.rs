//! Laws of the state machine, proved of [`step`] for every state and event.

use vstd::prelude::*;
use crate::backoff::backoff_delay;
use crate::config::Policy;
use crate::error::SupervisorError;
use crate::event::{Action, Event, SupervisorState};
use crate::model::{
    SupervisorView, initial, inv, launch_pending, lemma_initial_inv, lemma_step_keeps_inv, owned,
    run, started, step,
};
use crate::process::{LaunchError, ProcessHandle};
use crate::shutdown::{ExitWatch, ShutdownPhase, exit_watch_spec};

verus! {

/// Whether no new process may be launched from `state` by anything but a
/// fresh start.
pub open spec fn closed_to_restart(state: SupervisorState) -> bool {
    state == SupervisorState::ShuttingDown || state == SupervisorState::Stopped || state
        == SupervisorState::Failed
}

/// Handling events never leads out of the well-formed states.
pub proof fn lemma_run_keeps_inv(v: SupervisorView, events: Seq<Event>)
    requires
        inv(v),
    ensures
        inv(run(v, events)),
    decreases events.len(),
{
    if events.len() > 0 {
        lemma_run_keeps_inv(v, events.drop_last());
        lemma_step_keeps_inv(run(v, events.drop_last()), events.last());
    }
}

/// A well-formed supervisor answers for at most one process: it either holds
/// a child or awaits the result of a launch, never both.
pub proof fn lemma_owns_at_most_one(v: SupervisorView)
    requires
        inv(v),
    ensures
        owned(v) <= 1,
{
}

/// At most one process per supervisor: whatever events arrive, in whatever
/// order, the supervisor never answers for more than one process.
pub proof fn lemma_at_most_one_process(events: Seq<Event>)
    ensures
        inv(run(initial(), events)),
        owned(run(initial(), events)) <= 1,
{
    lemma_initial_inv();
    lemma_run_keeps_inv(initial(), events);
}

/// A launch is ordered only by a supervisor that answers for no process, and
/// leaves it awaiting that one launch.
pub proof fn lemma_launch_only_with_empty_hands(v: SupervisorView, event: Event)
    requires
        inv(v),
        step(v, event).1.launches(),
    ensures
        owned(v) == 0,
        step(v, event).0.state == SupervisorState::Launching,
        step(v, event).0.child is None,
{
}

/// The supervisor takes on a process only as the result of the launch it
/// was awaiting.
pub proof fn lemma_child_comes_from_awaited_launch(
    v: SupervisorView,
    event: Event,
    handle: ProcessHandle,
)
    requires
        inv(v),
        step(v, event).0.child == Some(handle),
        v.child != Some(handle),
    ensures
        launch_pending(v),
        v.child is None,
        event == Event::LaunchSucceeded(handle),
{
}

/// The supervisor lets go of a process only when it was told of its exit or
/// when it orders the host to make sure the process is dead.
pub proof fn lemma_child_released_only_dead(v: SupervisorView, event: Event, handle: ProcessHandle)
    requires
        inv(v),
        v.child == Some(handle),
        step(v, event).0.child != Some(handle),
    ensures
        step(v, event).0.child is None,
        event == Event::ChildExited(handle) || (step(v, event).1 matches Action::Restart {
            dispose,
            ..
        } && dispose == handle) || (step(v, event).1 matches Action::GiveUp { remaining, .. }
            && remaining == Some(handle)),
{
}

/// A second shutdown request changes nothing and orders nothing: no process
/// is touched by it.
pub proof fn lemma_shutdown_idempotent(v: SupervisorView)
    ensures
        step(step(v, Event::Shutdown).0, Event::Shutdown) == (
            step(v, Event::Shutdown).0,
            Action::Nothing,
        ),
        !step(step(v, Event::Shutdown).0, Event::Shutdown).1.touches_process(),
{
}

/// A shutdown request during a shutdown, after it, or after a failure
/// changes nothing and orders nothing.
pub proof fn lemma_shutdown_after_end_is_noop(v: SupervisorView)
    requires
        closed_to_restart(v.state),
    ensures
        step(v, Event::Shutdown) == (v, Action::Nothing),
        !step(v, Event::Shutdown).1.touches_process(),
{
}

/// After a shutdown request the supervisor is stopped, or shutting down, or
/// had failed before; it then answers for no process unless it is shutting
/// down.
pub proof fn lemma_shutdown_enters_shutdown(v: SupervisorView)
    requires
        inv(v),
    ensures
        closed_to_restart(step(v, Event::Shutdown).0.state),
        step(v, Event::Shutdown).0.state != SupervisorState::ShuttingDown ==> owned(
            step(v, Event::Shutdown).0,
        ) == 0,
        v.state != SupervisorState::Failed ==> step(v, Event::Shutdown).0.state
            != SupervisorState::Failed,
{
}

/// A child that the supervisor holds when shutdown is requested is asked to
/// exit, with the configured grace period.
pub proof fn lemma_shutdown_terminates_child(v: SupervisorView, handle: ProcessHandle)
    requires
        inv(v),
        !closed_to_restart(v.state),
        v.child == Some(handle),
    ensures
        step(v, Event::Shutdown).1 == (Action::Terminate {
            handle,
            grace_ms: v.policy.shutdown_grace_ms,
        }),
        step(v, Event::Shutdown).0.state == SupervisorState::ShuttingDown,
        step(v, Event::Shutdown).0.phase == ShutdownPhase::Terminating,
        step(v, Event::Shutdown).0.child == Some(handle),
{
}

/// While the child is asked to exit: its exit ends the shutdown, and the end
/// of the grace period orders the kill, whose completion ends the shutdown.
/// Either way the supervisor is left in `Stopped` with no process.
pub proof fn lemma_terminating_ends_stopped(v: SupervisorView, handle: ProcessHandle)
    requires
        inv(v),
        v.state == SupervisorState::ShuttingDown,
        v.phase == ShutdownPhase::Terminating,
        v.child == Some(handle),
    ensures
        step(v, Event::ChildExited(handle)).0.state == SupervisorState::Stopped,
        owned(step(v, Event::ChildExited(handle)).0) == 0,
        step(v, Event::GraceElapsed).1 == Action::ForceKill(handle),
        step(v, Event::GraceElapsed).0.error == Some(SupervisorError::ShutdownTimeout),
        step(step(v, Event::GraceElapsed).0, Event::ChildExited(handle)).0.state
            == SupervisorState::Stopped,
        owned(step(step(v, Event::GraceElapsed).0, Event::ChildExited(handle)).0) == 0,
{
}

/// A launch in flight when shutdown is requested never leaves a process
/// behind: a process that came to exist is taken over and asked to exit, and
/// without one the shutdown ends at once.
pub proof fn lemma_shutdown_during_launch(v: SupervisorView, handle: ProcessHandle, error: LaunchError)
    requires
        inv(v),
        v.state == SupervisorState::Launching,
    ensures
        step(v, Event::Shutdown).1 == Action::CancelLaunch,
        step(step(v, Event::Shutdown).0, Event::LaunchFailed(error)).0.state
            == SupervisorState::Stopped,
        step(step(v, Event::Shutdown).0, Event::LaunchSucceeded(handle)).1 == (Action::Terminate {
            handle,
            grace_ms: v.policy.shutdown_grace_ms,
        }),
        step(step(v, Event::Shutdown).0, Event::LaunchSucceeded(handle)).0.child == Some(handle),
        step(step(v, Event::Shutdown).0, Event::LaunchSucceeded(handle)).0.phase
            == ShutdownPhase::Terminating,
{
}

/// The kill is ordered no later than the grace period allows: a child that
/// is watched as [`exit_watch_spec`] says is reported when it exits, is
/// never waited for beyond the end of the grace period, and is ordered
/// killed by the first look at or after that moment.
pub proof fn lemma_grace_period_bounds_the_wait(
    v: SupervisorView,
    handle: ProcessHandle,
    elapsed_ms: u64,
)
    requires
        inv(v),
        v.state == SupervisorState::ShuttingDown,
        v.phase == ShutdownPhase::Terminating,
        v.child == Some(handle),
    ensures
        exit_watch_spec(handle, v.policy.shutdown_grace_ms, elapsed_ms, true) == ExitWatch::Report(
            Event::ChildExited(handle),
        ),
        elapsed_ms < v.policy.shutdown_grace_ms ==> exit_watch_spec(
            handle,
            v.policy.shutdown_grace_ms,
            elapsed_ms,
            false,
        ) == (ExitWatch::Wait { at_most_ms: (v.policy.shutdown_grace_ms - elapsed_ms) as u64 }),
        elapsed_ms >= v.policy.shutdown_grace_ms ==> exit_watch_spec(
            handle,
            v.policy.shutdown_grace_ms,
            elapsed_ms,
            false,
        ) == ExitWatch::Report(Event::GraceElapsed),
        step(v, Event::GraceElapsed).1 == Action::ForceKill(handle),
        step(v, Event::ChildExited(handle)).0.state == SupervisorState::Stopped,
{
}

/// Every order fits the state it is given in: a launch is ordered on
/// entering `Launching`, the readiness wait on entering `WaitingReady`, the
/// monitoring on entering `Running`, and so on; and every order that names
/// a process names the supervisor's own.
pub proof fn lemma_orders_fit_the_state(v: SupervisorView, event: Event)
    requires
        inv(v),
    ensures
        match step(v, event).1 {
            Action::Nothing => true,
            Action::Launch => step(v, event).0.state == SupervisorState::Launching,
            Action::AwaitReady(handle) => step(v, event).0.state == SupervisorState::WaitingReady
                && step(v, event).0.child == Some(handle),
            Action::Monitor(handle) => v.state == SupervisorState::WaitingReady && step(
                v,
                event,
            ).0.state == SupervisorState::Running && step(v, event).0.child == Some(handle),
            Action::Restart { dispose, .. } => step(v, event).0.state
                == SupervisorState::Restarting && v.child == Some(dispose),
            Action::GiveUp { remaining, .. } => step(v, event).0.state == SupervisorState::Failed
                && v.child == remaining,
            Action::Terminate { handle, .. } => step(v, event).0.state
                == SupervisorState::ShuttingDown && step(v, event).0.child == Some(handle),
            Action::ForceKill(handle) => step(v, event).0.state == SupervisorState::ShuttingDown
                && step(v, event).0.child == Some(handle),
            Action::CancelLaunch => step(v, event).0.state == SupervisorState::ShuttingDown
                && launch_pending(step(v, event).0),
            Action::CancelRestart => v.state == SupervisorState::Restarting && step(
                v,
                event,
            ).0.state == SupervisorState::Stopped,
        },
{
}

/// The backend is watched only while it runs: whenever the supervisor
/// leaves `Running`, its order ends the watch by taking the process away.
pub proof fn lemma_leaving_running_ends_the_watch(v: SupervisorView, event: Event, handle: ProcessHandle)
    requires
        inv(v),
        v.state == SupervisorState::Running,
        v.child == Some(handle),
        step(v, event).0.state != SupervisorState::Running,
    ensures
        (step(v, event).1 matches Action::Restart { dispose, .. } && dispose == handle) || step(
            v,
            event,
        ).1 == (Action::GiveUp {
            remaining: Some(handle),
            error: SupervisorError::RestartExhausted,
        }) || step(v, event).1 == (Action::Terminate {
            handle,
            grace_ms: v.policy.shutdown_grace_ms,
        }),
{
}

/// Every stopped supervisor answers for no process.
pub proof fn lemma_stopped_owns_nothing(v: SupervisorView)
    requires
        inv(v),
        v.state == SupervisorState::Stopped || v.state == SupervisorState::Failed,
    ensures
        owned(v) == 0,
{
}

/// Once shutdown has begun, or supervision has failed, no event launches a
/// process or leads back to a state that could, except a start from
/// `Stopped`.
pub proof fn lemma_no_launch_once_closed(v: SupervisorView, event: Event)
    requires
        closed_to_restart(v.state),
        !(v.state == SupervisorState::Stopped && event is Start),
    ensures
        !step(v, event).1.launches(),
        closed_to_restart(step(v, event).0.state),
{
}

/// `Failed` is final: no event changes it or orders anything.
pub proof fn lemma_failed_is_final(v: SupervisorView, event: Event)
    requires
        v.state == SupervisorState::Failed,
    ensures
        step(v, event) == (v, Action::Nothing),
{
}

/// A start anywhere but in `Idle` and `Stopped` changes nothing and orders
/// nothing.
pub proof fn lemma_start_elsewhere_is_noop(v: SupervisorView, policy: Policy)
    requires
        v.state != SupervisorState::Idle,
        v.state != SupervisorState::Stopped,
    ensures
        step(v, Event::Start(policy)) == (v, Action::Nothing),
{
}

/// Whether `event` reports the failure of the process `handle` that `v`
/// holds: a crash while running, or a readiness timeout while waiting.
pub open spec fn reports_failure(v: SupervisorView, event: Event, handle: ProcessHandle) -> bool {
    v.child == Some(handle) && ((v.state == SupervisorState::Running && event
        == Event::CrashDetected(handle)) || (v.state == SupervisorState::WaitingReady && event
        == Event::ProbeTimedOut(handle)))
}

/// While the budget lasts, a failure is answered by a restart after the
/// delay `min(base * 2^attempts, max)`, and the attempt is counted.
pub proof fn lemma_failure_within_budget_restarts(
    v: SupervisorView,
    event: Event,
    handle: ProcessHandle,
)
    requires
        reports_failure(v, event, handle),
        v.attempts < v.policy.max_restart_attempts,
    ensures
        step(v, event).0.state == SupervisorState::Restarting,
        step(v, event).0.attempts == v.attempts + 1,
        step(v, event).0.delay_ms == backoff_delay(
            v.policy.base_delay_ms as nat,
            v.policy.max_delay_ms as nat,
            v.attempts,
        ),
        step(v, event).1 matches Action::Restart { dispose, delay_ms, .. } && dispose == handle
            && delay_ms == step(v, event).0.delay_ms,
{
    crate::backoff::lemma_delay_bounded(
        v.policy.base_delay_ms as nat,
        v.policy.max_delay_ms as nat,
        v.attempts,
    );
}

/// From one restart to the next the delay never shrinks.
pub proof fn lemma_restart_delays_never_shrink(
    v: SupervisorView,
    event: Event,
    handle: ProcessHandle,
)
    requires
        inv(v),
        reports_failure(v, event, handle),
        v.attempts < v.policy.max_restart_attempts,
    ensures
        v.delay_ms <= step(v, event).0.delay_ms,
        step(v, event).0.delay_ms <= v.policy.max_delay_ms,
{
    let base = v.policy.base_delay_ms as nat;
    let max = v.policy.max_delay_ms as nat;
    crate::backoff::lemma_delay_bounded(base, max, v.attempts);
    if v.attempts > 0 {
        crate::backoff::lemma_delay_nondecreasing(base, max, (v.attempts - 1) as nat, v.attempts);
    }
}

/// With the budget spent, a failure ends supervision: the supervisor fails
/// with `RestartExhausted` and orders no launch and no restart.
pub proof fn lemma_failure_beyond_budget_fails(
    v: SupervisorView,
    event: Event,
    handle: ProcessHandle,
)
    requires
        reports_failure(v, event, handle),
        v.attempts >= v.policy.max_restart_attempts,
    ensures
        step(v, event).0.state == SupervisorState::Failed,
        step(v, event).0.error == Some(SupervisorError::RestartExhausted),
        step(v, event).0.child is None,
        step(v, event).1 == (Action::GiveUp {
            remaining: Some(handle),
            error: SupervisorError::RestartExhausted,
        }),
{
}

/// A failed launch is never retried: the supervisor fails at once with the
/// launch error and the restart counter untouched.
pub proof fn lemma_launch_failure_is_final(v: SupervisorView, error: LaunchError)
    requires
        v.state == SupervisorState::Launching,
    ensures
        step(v, Event::LaunchFailed(error)).0.state == SupervisorState::Failed,
        step(v, Event::LaunchFailed(error)).0.error == Some(SupervisorError::Launch(error)),
        step(v, Event::LaunchFailed(error)).0.attempts == v.attempts,
        step(v, Event::LaunchFailed(error)).1 == (Action::GiveUp {
            remaining: None,
            error: SupervisorError::Launch(error),
        }),
{
}

/// Number of launches ordered while handling `events` from `v`.
pub open spec fn launches_ordered(v: SupervisorView, events: Seq<Event>) -> nat
    decreases events.len(),
{
    if events.len() == 0 {
        0
    } else {
        let before = launches_ordered(v, events.drop_last());
        if step(run(v, events.drop_last()), events.last()).1.launches() {
            before + 1
        } else {
            before
        }
    }
}

/// Whether `events` holds neither a start nor a notice of reached uptime.
pub open spec fn one_unbroken_run(events: Seq<Event>) -> bool {
    forall|i: int|
        0 <= i < events.len() ==> !(#[trigger] events[i] is Start) && !(events[i] is UptimeReached)
}

/// The restart budget bounds the launches of one run: after the first
/// launch, and as long as the backend never stays up for the minimum
/// uptime, at most `max_restart_attempts` further launches are ordered,
/// whatever happens.
pub proof fn lemma_launches_within_budget(policy: Policy, events: Seq<Event>)
    requires
        one_unbroken_run(events),
    ensures
        launches_ordered(started(policy), events) <= run(started(policy), events).attempts,
        run(started(policy), events).attempts <= policy.max_restart_attempts,
        run(started(policy), events).policy == policy,
        run(started(policy), events).state == SupervisorState::Restarting ==> launches_ordered(
            started(policy),
            events,
        ) < run(started(policy), events).attempts,
    decreases events.len(),
{
    lemma_run_keeps_inv(started(policy), events);
    if events.len() > 0 {
        let earlier = events.drop_last();
        assert forall|i: int| 0 <= i < earlier.len() implies !(#[trigger] earlier[i] is Start)
            && !(earlier[i] is UptimeReached) by {
            assert(earlier[i] == events[i]);
        }
        lemma_launches_within_budget(policy, earlier);
        lemma_run_keeps_inv(started(policy), earlier);
        let last = events.last();
        assert(last == events[events.len() - 1]);
        assert(!(last is Start) && !(last is UptimeReached));
    }
}

} // verus!
