//! The executable supervisor.

use vstd::prelude::*;
use crate::backoff::BackoffState;
use crate::config::{Config, Policy};
use crate::error::SupervisorError;
use crate::event::{Action, Event, SupervisorState, Transition};
use crate::model::{SupervisorView, initial, inv, lemma_step_keeps_inv, step};
use crate::process::{LaunchError, ProcessHandle};
use crate::shutdown::{Pending, ShutdownCoordinator, ShutdownPhase};

verus! {

/// Coordinates launch, readiness, monitoring, restart and shutdown of one
/// backend process.
///
/// The supervisor is the only owner of the process handle and the only
/// place where the lifecycle state changes. It performs nothing itself:
/// [`Supervisor::handle`] answers every event with the action the host has
/// to carry out.
#[derive(Debug)]
pub struct Supervisor {
    policy: Policy,
    state: SupervisorState,
    backoff: BackoffState,
    shutdown: ShutdownCoordinator,
    child: Option<ProcessHandle>,
    error: Option<SupervisorError>,
}

impl View for Supervisor {
    type V = SupervisorView;

    closed spec fn view(&self) -> SupervisorView {
        SupervisorView {
            policy: self.policy,
            state: self.state,
            phase: self.shutdown@,
            attempts: self.backoff.attempts(),
            delay_ms: self.backoff.delay(),
            child: self.child,
            error: self.error,
        }
    }
}

impl Supervisor {
    #[verifier::type_invariant]
    spec fn well_formed(self) -> bool {
        inv(self@)
    }

    /// A supervisor in `Idle`.
    pub fn new() -> (s: Self)
        ensures
            s@ == initial(),
            inv(s@),
    {
        Supervisor {
            policy: Policy {
                max_restart_attempts: 0,
                base_delay_ms: 0,
                max_delay_ms: 0,
                shutdown_grace_ms: 0,
            },
            state: SupervisorState::Idle,
            backoff: BackoffState::new(),
            shutdown: ShutdownCoordinator::new(),
            child: None,
            error: None,
        }
    }

    /// The lifecycle state.
    pub fn state(&self) -> (state: SupervisorState)
        ensures
            state == self@.state,
    {
        self.state
    }

    /// The process the supervisor is responsible for.
    pub fn child(&self) -> (child: Option<ProcessHandle>)
        ensures
            child == self@.child,
    {
        self.child
    }

    /// Restarts granted since the counter was last cleared.
    pub fn attempt_count(&self) -> (n: u32)
        ensures
            n == self@.attempts,
    {
        self.backoff.attempt_count()
    }

    /// Delay granted with the latest restart.
    pub fn restart_delay_ms(&self) -> (d: u64)
        ensures
            d == self@.delay_ms,
    {
        self.backoff.delay_ms()
    }

    /// The latest failure.
    pub fn last_error(&self) -> (error: Option<SupervisorError>)
        ensures
            error == self@.error,
    {
        self.error
    }

    /// Progress of the shutdown.
    pub fn shutdown_phase(&self) -> (phase: ShutdownPhase)
        ensures
            phase == self@.phase,
    {
        self.shutdown.phase()
    }

    /// The numbers given with the latest start.
    pub fn policy(&self) -> (policy: Policy)
        ensures
            policy == self@.policy,
    {
        self.policy
    }

    /// Whether supervision has ended, in `Stopped` or in `Failed`. A
    /// supervisor that has ended answers for no process.
    pub fn is_finished(&self) -> (finished: bool)
        ensures
            finished == (self@.state == SupervisorState::Stopped || self@.state
                == SupervisorState::Failed),
            finished ==> crate::model::owned(self@) == 0,
    {
        proof {
            use_type_invariant(self);
        }
        self.state == SupervisorState::Stopped || self.state == SupervisorState::Failed
    }

    /// Whether the supervisor is responsible for exactly `handle`.
    fn holds(&self, handle: ProcessHandle) -> (yes: bool)
        ensures
            yes == (self@.child == Some(handle)),
    {
        match self.child {
            Some(own) => own == handle,
            None => false,
        }
    }

    /// The same supervisor in another lifecycle state.
    fn moved_to(&self, state: SupervisorState) -> (next: Supervisor)
        requires
            inv(SupervisorView { state, ..self@ }),
        ensures
            next@ == (SupervisorView { state, ..self@ }),
    {
        Supervisor {
            policy: self.policy,
            state,
            backoff: self.backoff,
            shutdown: self.shutdown,
            child: self.child,
            error: self.error,
        }
    }

    /// The supervisor after the end of a shutdown.
    fn stopped(&self) -> (next: Supervisor)
        ensures
            next@ == crate::model::stopped(self@),
    {
        proof {
            use_type_invariant(self);
        }
        let mut shutdown = ShutdownCoordinator::new();
        shutdown.request(None, Pending::Nothing, self.policy.shutdown_grace_ms);
        Supervisor {
            policy: self.policy,
            state: SupervisorState::Stopped,
            backoff: self.backoff,
            shutdown,
            child: None,
            error: self.error,
        }
    }

    fn restart_or_fail(&self, handle: ProcessHandle, cause: SupervisorError) -> (next: (
        Supervisor,
        Action,
    ))
        requires
            self@.state == SupervisorState::WaitingReady || self@.state
                == SupervisorState::Running,
        ensures
            (next.0@, next.1) == crate::model::restart_or_fail(self@, handle, cause),
    {
        proof {
            use_type_invariant(self);
            crate::backoff::lemma_delay_bounded(
                self.policy.base_delay_ms as nat,
                self.policy.max_delay_ms as nat,
                self.backoff.attempts(),
            );
        }
        let mut backoff = self.backoff;
        match backoff.next_attempt(&self.policy) {
            Some(delay_ms) => (
                Supervisor {
                    policy: self.policy,
                    state: SupervisorState::Restarting,
                    backoff,
                    shutdown: self.shutdown,
                    child: None,
                    error: Some(cause),
                },
                Action::Restart { dispose: handle, delay_ms, cause },
            ),
            None => (
                Supervisor {
                    policy: self.policy,
                    state: SupervisorState::Failed,
                    backoff,
                    shutdown: self.shutdown,
                    child: None,
                    error: Some(SupervisorError::RestartExhausted),
                },
                Action::GiveUp { remaining: Some(handle), error: SupervisorError::RestartExhausted },
            ),
        }
    }

    fn on_start(&self, policy: Policy) -> (next: (Supervisor, Action))
        ensures
            (next.0@, next.1) == crate::model::on_start(self@, policy),
    {
        match self.state {
            SupervisorState::Idle | SupervisorState::Stopped => (
                Supervisor {
                    policy,
                    state: SupervisorState::Launching,
                    backoff: BackoffState::new(),
                    shutdown: ShutdownCoordinator::new(),
                    child: None,
                    error: None,
                },
                Action::Launch,
            ),
            _ => (self.unchanged(), Action::Nothing),
        }
    }

    /// A copy of this supervisor.
    fn unchanged(&self) -> (next: Supervisor)
        ensures
            next@ == self@,
    {
        proof {
            use_type_invariant(self);
        }
        self.moved_to(self.state)
    }

    fn on_shutdown(&self) -> (next: (Supervisor, Action))
        ensures
            (next.0@, next.1) == crate::model::on_shutdown(self@),
    {
        proof {
            use_type_invariant(self);
        }
        let pending = match self.state {
            SupervisorState::ShuttingDown | SupervisorState::Stopped | SupervisorState::Failed => {
                return (self.unchanged(), Action::Nothing);
            },
            SupervisorState::Launching => Pending::Launch,
            SupervisorState::Restarting => Pending::Backoff,
            _ => Pending::Nothing,
        };
        let mut shutdown = self.shutdown;
        let action = shutdown.request(self.child, pending, self.policy.shutdown_grace_ms);
        let state = if shutdown.is_complete() {
            SupervisorState::Stopped
        } else {
            SupervisorState::ShuttingDown
        };
        (
            Supervisor {
                policy: self.policy,
                state,
                backoff: self.backoff,
                shutdown,
                child: self.child,
                error: self.error,
            },
            action,
        )
    }

    fn on_launch_succeeded(&self, handle: ProcessHandle) -> (next: (Supervisor, Action))
        ensures
            (next.0@, next.1) == crate::model::on_launch_succeeded(self@, handle),
    {
        proof {
            use_type_invariant(self);
        }
        match self.state {
            SupervisorState::Launching => (
                Supervisor {
                    policy: self.policy,
                    state: SupervisorState::WaitingReady,
                    backoff: self.backoff,
                    shutdown: self.shutdown,
                    child: Some(handle),
                    error: self.error,
                },
                Action::AwaitReady(handle),
            ),
            SupervisorState::ShuttingDown => {
                let mut shutdown = self.shutdown;
                let action = shutdown.launch_resolved(
                    Some(handle),
                    self.policy.shutdown_grace_ms,
                );
                match action {
                    Action::Terminate { .. } => (
                        Supervisor {
                            policy: self.policy,
                            state: SupervisorState::ShuttingDown,
                            backoff: self.backoff,
                            shutdown,
                            child: Some(handle),
                            error: self.error,
                        },
                        action,
                    ),
                    _ => (self.unchanged(), Action::Nothing),
                }
            },
            _ => (self.unchanged(), Action::Nothing),
        }
    }

    fn on_launch_failed(&self, error: LaunchError) -> (next: (Supervisor, Action))
        ensures
            (next.0@, next.1) == crate::model::on_launch_failed(self@, error),
    {
        proof {
            use_type_invariant(self);
        }
        match self.state {
            SupervisorState::Launching => (
                Supervisor {
                    policy: self.policy,
                    state: SupervisorState::Failed,
                    backoff: self.backoff,
                    shutdown: self.shutdown,
                    child: self.child,
                    error: Some(SupervisorError::Launch(error)),
                },
                Action::GiveUp { remaining: None, error: SupervisorError::Launch(error) },
            ),
            SupervisorState::ShuttingDown => {
                let mut shutdown = self.shutdown;
                shutdown.launch_resolved(None, self.policy.shutdown_grace_ms);
                if shutdown.is_complete() {
                    (self.stopped(), Action::Nothing)
                } else {
                    (self.unchanged(), Action::Nothing)
                }
            },
            _ => (self.unchanged(), Action::Nothing),
        }
    }

    fn on_probe_succeeded(&self, handle: ProcessHandle) -> (next: (Supervisor, Action))
        ensures
            (next.0@, next.1) == crate::model::on_probe_succeeded(self@, handle),
    {
        proof {
            use_type_invariant(self);
        }
        if self.state == SupervisorState::WaitingReady && self.holds(handle) {
            (self.moved_to(SupervisorState::Running), Action::Monitor(handle))
        } else {
            (self.unchanged(), Action::Nothing)
        }
    }

    fn on_probe_timed_out(&self, handle: ProcessHandle) -> (next: (Supervisor, Action))
        ensures
            (next.0@, next.1) == crate::model::on_probe_timed_out(self@, handle),
    {
        if self.state == SupervisorState::WaitingReady && self.holds(handle) {
            self.restart_or_fail(handle, SupervisorError::ReadinessTimeout)
        } else {
            (self.unchanged(), Action::Nothing)
        }
    }

    fn on_uptime_reached(&self, handle: ProcessHandle) -> (next: (Supervisor, Action))
        ensures
            (next.0@, next.1) == crate::model::on_uptime_reached(self@, handle),
    {
        proof {
            use_type_invariant(self);
        }
        if self.state == SupervisorState::Running && self.holds(handle) {
            (
                Supervisor {
                    policy: self.policy,
                    state: self.state,
                    backoff: BackoffState::new(),
                    shutdown: self.shutdown,
                    child: self.child,
                    error: self.error,
                },
                Action::Nothing,
            )
        } else {
            (self.unchanged(), Action::Nothing)
        }
    }

    fn on_crash_detected(&self, handle: ProcessHandle) -> (next: (Supervisor, Action))
        ensures
            (next.0@, next.1) == crate::model::on_crash_detected(self@, handle),
    {
        if self.state == SupervisorState::Running && self.holds(handle) {
            self.restart_or_fail(handle, SupervisorError::Crash)
        } else {
            (self.unchanged(), Action::Nothing)
        }
    }

    fn on_backoff_elapsed(&self) -> (next: (Supervisor, Action))
        ensures
            (next.0@, next.1) == crate::model::on_backoff_elapsed(self@),
    {
        proof {
            use_type_invariant(self);
        }
        if self.state == SupervisorState::Restarting {
            (self.moved_to(SupervisorState::Launching), Action::Launch)
        } else {
            (self.unchanged(), Action::Nothing)
        }
    }

    fn on_child_exited(&self, handle: ProcessHandle) -> (next: (Supervisor, Action))
        ensures
            (next.0@, next.1) == crate::model::on_child_exited(self@, handle),
    {
        proof {
            use_type_invariant(self);
        }
        if self.state == SupervisorState::ShuttingDown && self.holds(handle) {
            let mut shutdown = self.shutdown;
            shutdown.child_exited();
            if shutdown.is_complete() {
                return (self.stopped(), Action::Nothing);
            }
        }
        (self.unchanged(), Action::Nothing)
    }

    fn on_grace_elapsed(&self) -> (next: (Supervisor, Action))
        ensures
            (next.0@, next.1) == crate::model::on_grace_elapsed(self@),
    {
        proof {
            use_type_invariant(self);
        }
        if self.state != SupervisorState::ShuttingDown {
            return (self.unchanged(), Action::Nothing);
        }
        let mut shutdown = self.shutdown;
        let action = shutdown.grace_elapsed(self.child);
        match action {
            Action::ForceKill(_) => (
                Supervisor {
                    policy: self.policy,
                    state: SupervisorState::ShuttingDown,
                    backoff: self.backoff,
                    shutdown,
                    child: self.child,
                    error: Some(SupervisorError::ShutdownTimeout),
                },
                action,
            ),
            _ => (self.unchanged(), Action::Nothing),
        }
    }

    /// Handles one event: moves to the next state and says what the host has
    /// to do.
    pub fn handle(&mut self, event: Event) -> (t: Transition)
        ensures
            (final(self)@, t.action) == step(old(self)@, event),
            t.state == final(self)@.state,
            inv(old(self)@),
            inv(final(self)@),
    {
        proof {
            use_type_invariant(&*self);
            lemma_step_keeps_inv(self@, event);
        }
        let (next, action) = match event {
            Event::Start(policy) => self.on_start(policy),
            Event::Shutdown => self.on_shutdown(),
            Event::LaunchSucceeded(handle) => self.on_launch_succeeded(handle),
            Event::LaunchFailed(error) => self.on_launch_failed(error),
            Event::ProbeSucceeded(handle) => self.on_probe_succeeded(handle),
            Event::ProbeTimedOut(handle) => self.on_probe_timed_out(handle),
            Event::UptimeReached(handle) => self.on_uptime_reached(handle),
            Event::CrashDetected(handle) => self.on_crash_detected(handle),
            Event::BackoffElapsed => self.on_backoff_elapsed(),
            Event::ChildExited(handle) => self.on_child_exited(handle),
            Event::GraceElapsed => self.on_grace_elapsed(),
        };
        *self = next;
        Transition { state: self.state, action }
    }

    /// Starts supervision under `config`. Acts in `Idle` and `Stopped`, where
    /// it orders the first launch; anywhere else it changes nothing and
    /// returns the current state.
    pub fn start(&mut self, config: &Config) -> (t: Transition)
        ensures
            (final(self)@, t.action) == step(old(self)@, Event::Start(config.policy_of())),
            t.state == final(self)@.state,
            inv(old(self)@),
            inv(final(self)@),
    {
        self.handle(Event::Start(config.policy()))
    }

    /// Requests shutdown. Only the first request acts; a repeated one, or one
    /// in `Stopped` or `Failed`, changes and orders nothing.
    pub fn shutdown(&mut self) -> (t: Transition)
        ensures
            (final(self)@, t.action) == step(old(self)@, Event::Shutdown),
            t.state == final(self)@.state,
            inv(old(self)@),
            inv(final(self)@),
    {
        self.handle(Event::Shutdown)
    }
}

} // verus!
