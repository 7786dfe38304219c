//! The supervisor as a transition function on plain values.
//!
//! [`step`] is the whole state machine: it maps a state and an event to the
//! next state and the action the host has to perform. The executable
//! supervisor is specified by it, and the laws of the crate are stated of it.

use vstd::prelude::*;
use crate::backoff::backoff_delay;
use crate::config::Policy;
use crate::error::SupervisorError;
use crate::event::{Action, Event, SupervisorState};
use crate::process::{LaunchError, ProcessHandle};
use crate::shutdown::ShutdownPhase;

verus! {

/// Everything the supervisor knows, as mathematical values.
pub struct SupervisorView {
    /// The numbers given with the latest start.
    pub policy: Policy,
    pub state: SupervisorState,
    /// Progress of the shutdown.
    pub phase: ShutdownPhase,
    /// Restarts granted since the counter was last cleared.
    pub attempts: nat,
    /// Delay granted with the latest restart.
    pub delay_ms: nat,
    /// The process the supervisor is responsible for, if there is one.
    pub child: Option<ProcessHandle>,
    /// The latest failure.
    pub error: Option<SupervisorError>,
}

/// The supervisor before anything was asked of it.
pub open spec fn initial() -> SupervisorView {
    SupervisorView {
        policy: Policy {
            max_restart_attempts: 0,
            base_delay_ms: 0,
            max_delay_ms: 0,
            shutdown_grace_ms: 0,
        },
        state: SupervisorState::Idle,
        phase: ShutdownPhase::Inactive,
        attempts: 0,
        delay_ms: 0,
        child: None,
        error: None,
    }
}

/// The supervisor right after a start under `policy`: a first launch is
/// ordered and nothing is remembered of earlier runs.
pub open spec fn started(policy: Policy) -> SupervisorView {
    SupervisorView {
        policy,
        state: SupervisorState::Launching,
        phase: ShutdownPhase::Inactive,
        attempts: 0,
        delay_ms: 0,
        child: None,
        error: None,
    }
}

/// The supervisor after a shutdown that left nothing to wait for.
pub open spec fn stopped(v: SupervisorView) -> SupervisorView {
    SupervisorView {
        state: SupervisorState::Stopped,
        phase: ShutdownPhase::Complete,
        child: None,
        ..v
    }
}

/// A start acts in `Idle` and `Stopped` and is ignored everywhere else.
pub open spec fn on_start(v: SupervisorView, policy: Policy) -> (SupervisorView, Action) {
    if v.state == SupervisorState::Idle || v.state == SupervisorState::Stopped {
        (started(policy), Action::Launch)
    } else {
        (v, Action::Nothing)
    }
}

/// A shutdown request: a child is asked to exit, a launch in flight is
/// awaited, a backoff delay is abandoned; a second request, or one after the
/// end, changes and orders nothing.
pub open spec fn on_shutdown(v: SupervisorView) -> (SupervisorView, Action) {
    match v.state {
        SupervisorState::Idle => (stopped(v), Action::Nothing),
        SupervisorState::Restarting => (stopped(v), Action::CancelRestart),
        SupervisorState::Launching => (
            SupervisorView {
                state: SupervisorState::ShuttingDown,
                phase: ShutdownPhase::AwaitingLaunch,
                ..v
            },
            Action::CancelLaunch,
        ),
        SupervisorState::WaitingReady | SupervisorState::Running => match v.child {
            Some(handle) => (
                SupervisorView {
                    state: SupervisorState::ShuttingDown,
                    phase: ShutdownPhase::Terminating,
                    ..v
                },
                Action::Terminate { handle, grace_ms: v.policy.shutdown_grace_ms },
            ),
            None => (stopped(v), Action::Nothing),
        },
        SupervisorState::ShuttingDown | SupervisorState::Stopped | SupervisorState::Failed => (
            v,
            Action::Nothing,
        ),
    }
}

/// After a crash or a readiness timeout of `handle`: one more restart after
/// the backoff delay while the budget lasts, otherwise the end.
pub open spec fn restart_or_fail(v: SupervisorView, handle: ProcessHandle, cause: SupervisorError) -> (
    SupervisorView,
    Action,
) {
    if v.attempts < v.policy.max_restart_attempts {
        let delay = backoff_delay(
            v.policy.base_delay_ms as nat,
            v.policy.max_delay_ms as nat,
            v.attempts,
        );
        (
            SupervisorView {
                state: SupervisorState::Restarting,
                attempts: v.attempts + 1,
                delay_ms: delay,
                child: None,
                error: Some(cause),
                ..v
            },
            Action::Restart { dispose: handle, delay_ms: delay as u64, cause },
        )
    } else {
        (
            SupervisorView {
                state: SupervisorState::Failed,
                child: None,
                error: Some(SupervisorError::RestartExhausted),
                ..v
            },
            Action::GiveUp { remaining: Some(handle), error: SupervisorError::RestartExhausted },
        )
    }
}

/// The ordered launch created `handle`. During a shutdown the new process is
/// taken over and asked to exit at once.
pub open spec fn on_launch_succeeded(v: SupervisorView, handle: ProcessHandle) -> (
    SupervisorView,
    Action,
) {
    if v.state == SupervisorState::Launching {
        (
            SupervisorView { state: SupervisorState::WaitingReady, child: Some(handle), ..v },
            Action::AwaitReady(handle),
        )
    } else if v.state == SupervisorState::ShuttingDown && v.phase
        == ShutdownPhase::AwaitingLaunch {
        (
            SupervisorView { phase: ShutdownPhase::Terminating, child: Some(handle), ..v },
            Action::Terminate { handle, grace_ms: v.policy.shutdown_grace_ms },
        )
    } else {
        (v, Action::Nothing)
    }
}

/// The ordered launch created no process: a failure that no restart answers.
pub open spec fn on_launch_failed(v: SupervisorView, error: LaunchError) -> (
    SupervisorView,
    Action,
) {
    if v.state == SupervisorState::Launching {
        (
            SupervisorView {
                state: SupervisorState::Failed,
                error: Some(SupervisorError::Launch(error)),
                ..v
            },
            Action::GiveUp { remaining: None, error: SupervisorError::Launch(error) },
        )
    } else if v.state == SupervisorState::ShuttingDown && v.phase
        == ShutdownPhase::AwaitingLaunch {
        (stopped(v), Action::Nothing)
    } else {
        (v, Action::Nothing)
    }
}

/// Whether `v` is in `state` and responsible for exactly `handle`.
pub open spec fn holds_in(v: SupervisorView, state: SupervisorState, handle: ProcessHandle) -> bool {
    v.state == state && v.child == Some(handle)
}

/// The backend answered in time: it runs from now on and is watched.
pub open spec fn on_probe_succeeded(v: SupervisorView, handle: ProcessHandle) -> (
    SupervisorView,
    Action,
) {
    if holds_in(v, SupervisorState::WaitingReady, handle) {
        (SupervisorView { state: SupervisorState::Running, ..v }, Action::Monitor(handle))
    } else {
        (v, Action::Nothing)
    }
}

/// The backend did not answer in time: restart or give up.
pub open spec fn on_probe_timed_out(v: SupervisorView, handle: ProcessHandle) -> (
    SupervisorView,
    Action,
) {
    if holds_in(v, SupervisorState::WaitingReady, handle) {
        restart_or_fail(v, handle, SupervisorError::ReadinessTimeout)
    } else {
        (v, Action::Nothing)
    }
}

/// The backend has run long enough: earlier restarts are forgotten.
pub open spec fn on_uptime_reached(v: SupervisorView, handle: ProcessHandle) -> (
    SupervisorView,
    Action,
) {
    if holds_in(v, SupervisorState::Running, handle) {
        (SupervisorView { attempts: 0, delay_ms: 0, ..v }, Action::Nothing)
    } else {
        (v, Action::Nothing)
    }
}

/// The running backend exited or stopped answering: restart or give up.
pub open spec fn on_crash_detected(v: SupervisorView, handle: ProcessHandle) -> (
    SupervisorView,
    Action,
) {
    if holds_in(v, SupervisorState::Running, handle) {
        restart_or_fail(v, handle, SupervisorError::Crash)
    } else {
        (v, Action::Nothing)
    }
}

/// The backoff delay has passed: the next launch is ordered.
pub open spec fn on_backoff_elapsed(v: SupervisorView) -> (SupervisorView, Action) {
    if v.state == SupervisorState::Restarting {
        (SupervisorView { state: SupervisorState::Launching, ..v }, Action::Launch)
    } else {
        (v, Action::Nothing)
    }
}

/// The child was seen to have exited; this ends a shutdown.
pub open spec fn on_child_exited(v: SupervisorView, handle: ProcessHandle) -> (
    SupervisorView,
    Action,
) {
    if holds_in(v, SupervisorState::ShuttingDown, handle) && (v.phase
        == ShutdownPhase::Terminating || v.phase == ShutdownPhase::Killing) {
        (stopped(v), Action::Nothing)
    } else {
        (v, Action::Nothing)
    }
}

/// The grace period passed: the child that was asked to exit is killed, and
/// the missed deadline is recorded.
pub open spec fn on_grace_elapsed(v: SupervisorView) -> (SupervisorView, Action) {
    if v.state == SupervisorState::ShuttingDown && v.phase == ShutdownPhase::Terminating {
        match v.child {
            Some(handle) => (
                SupervisorView {
                    phase: ShutdownPhase::Killing,
                    error: Some(SupervisorError::ShutdownTimeout),
                    ..v
                },
                Action::ForceKill(handle),
            ),
            None => (stopped(v), Action::Nothing),
        }
    } else {
        (v, Action::Nothing)
    }
}

/// The state machine: next state and ordered action for every state and
/// event. An event that has no edge from the current state, or that speaks
/// of a process other than the supervisor's own, changes and orders nothing.
pub open spec fn step(v: SupervisorView, event: Event) -> (SupervisorView, Action) {
    match event {
        Event::Start(policy) => on_start(v, policy),
        Event::Shutdown => on_shutdown(v),
        Event::LaunchSucceeded(handle) => on_launch_succeeded(v, handle),
        Event::LaunchFailed(error) => on_launch_failed(v, error),
        Event::ProbeSucceeded(handle) => on_probe_succeeded(v, handle),
        Event::ProbeTimedOut(handle) => on_probe_timed_out(v, handle),
        Event::UptimeReached(handle) => on_uptime_reached(v, handle),
        Event::CrashDetected(handle) => on_crash_detected(v, handle),
        Event::BackoffElapsed => on_backoff_elapsed(v),
        Event::ChildExited(handle) => on_child_exited(v, handle),
        Event::GraceElapsed => on_grace_elapsed(v),
    }
}

/// The state reached from `v` by handling `events` in order.
pub open spec fn run(v: SupervisorView, events: Seq<Event>) -> SupervisorView
    decreases events.len(),
{
    if events.len() == 0 {
        v
    } else {
        step(run(v, events.drop_last()), events.last()).0
    }
}

/// What holds in every state the supervisor can reach.
///
/// The state tells whether the supervisor is responsible for a process: it
/// has one while it waits for readiness, while the backend runs and while a
/// shutdown is ending it, and none otherwise. The restart counter stays
/// within the budget, and the granted delay is the one of the latest
/// restart, within its cap.
pub open spec fn inv(v: SupervisorView) -> bool {
    &&& v.attempts <= v.policy.max_restart_attempts
    &&& v.delay_ms <= v.policy.max_delay_ms
    &&& v.delay_ms == if v.attempts == 0 {
        0
    } else {
        backoff_delay(
            v.policy.base_delay_ms as nat,
            v.policy.max_delay_ms as nat,
            (v.attempts - 1) as nat,
        )
    }
    &&& match v.state {
        SupervisorState::Idle
        | SupervisorState::Launching
        | SupervisorState::Restarting
        | SupervisorState::Failed => v.child is None && v.phase == ShutdownPhase::Inactive,
        SupervisorState::WaitingReady | SupervisorState::Running => v.child is Some && v.phase
            == ShutdownPhase::Inactive,
        SupervisorState::ShuttingDown => if v.child is None {
            v.phase == ShutdownPhase::AwaitingLaunch
        } else {
            v.phase == ShutdownPhase::Terminating || v.phase == ShutdownPhase::Killing
        },
        SupervisorState::Stopped => v.child is None && v.phase == ShutdownPhase::Complete,
    }
}

/// Whether a launch was ordered whose result has not been reported yet.
pub open spec fn launch_pending(v: SupervisorView) -> bool {
    v.state == SupervisorState::Launching || (v.state == SupervisorState::ShuttingDown && v.phase
        == ShutdownPhase::AwaitingLaunch)
}

/// Number of processes the supervisor answers for: the child it holds and
/// the one a pending launch may still create.
pub open spec fn owned(v: SupervisorView) -> nat {
    let held: nat = if v.child is Some { 1 } else { 0 };
    let pending: nat = if launch_pending(v) { 1 } else { 0 };
    held + pending
}

/// The initial state is well formed.
pub proof fn lemma_initial_inv()
    ensures
        inv(initial()),
{
}

/// No event leads out of the well-formed states.
pub proof fn lemma_step_keeps_inv(v: SupervisorView, event: Event)
    requires
        inv(v),
    ensures
        inv(step(v, event).0),
{
    crate::backoff::lemma_delay_bounded(
        v.policy.base_delay_ms as nat,
        v.policy.max_delay_ms as nat,
        v.attempts,
    );
}

} // verus!
