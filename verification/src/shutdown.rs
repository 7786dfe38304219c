//! Orderly shutdown of the child process.

use vstd::prelude::*;
use crate::event::{Action, Event};
use crate::process::ProcessHandle;

verus! {

/// How far a shutdown has come.
#[derive(Clone, Copy, Debug, PartialEq, Eq, Structural)]
pub enum ShutdownPhase {
    /// No shutdown was requested.
    Inactive,
    /// A launch was in flight when shutdown was requested; its result decides
    /// whether there is a process to end.
    AwaitingLaunch,
    /// The child was asked to exit and the grace period is running.
    Terminating,
    /// The grace period passed and the kill was ordered.
    Killing,
    /// No child is left.
    Complete,
}

/// What the supervisor was waiting for when shutdown was requested.
#[derive(Clone, Copy, Debug, PartialEq, Eq, Structural)]
pub enum Pending {
    /// Nothing.
    Nothing,
    /// The result of a launch.
    Launch,
    /// The end of a backoff delay.
    Backoff,
}

/// Phase and order after a shutdown request.
///
/// Only the first request acts. A child is asked to exit; a launch in flight
/// is awaited; with neither, the shutdown is complete at once.
pub open spec fn request_spec(
    phase: ShutdownPhase,
    child: Option<ProcessHandle>,
    pending: Pending,
    grace_ms: u64,
) -> (ShutdownPhase, Action) {
    if phase != ShutdownPhase::Inactive {
        (phase, Action::Nothing)
    } else {
        match child {
            Some(handle) => (ShutdownPhase::Terminating, Action::Terminate { handle, grace_ms }),
            None => match pending {
                Pending::Launch => (ShutdownPhase::AwaitingLaunch, Action::CancelLaunch),
                Pending::Backoff => (ShutdownPhase::Complete, Action::CancelRestart),
                Pending::Nothing => (ShutdownPhase::Complete, Action::Nothing),
            },
        }
    }
}

/// Phase and order once the launch that was in flight has ended: a process
/// that came to exist is asked to exit, otherwise the shutdown is complete.
pub open spec fn launch_resolved_spec(
    phase: ShutdownPhase,
    spawned: Option<ProcessHandle>,
    grace_ms: u64,
) -> (ShutdownPhase, Action) {
    if phase != ShutdownPhase::AwaitingLaunch {
        (phase, Action::Nothing)
    } else {
        match spawned {
            Some(handle) => (ShutdownPhase::Terminating, Action::Terminate { handle, grace_ms }),
            None => (ShutdownPhase::Complete, Action::Nothing),
        }
    }
}

/// Phase once the child was seen to have exited.
pub open spec fn child_exited_spec(phase: ShutdownPhase) -> ShutdownPhase {
    if phase == ShutdownPhase::Terminating || phase == ShutdownPhase::Killing {
        ShutdownPhase::Complete
    } else {
        phase
    }
}

/// Phase and order once the grace period has passed: a child that was asked
/// to exit is killed.
pub open spec fn grace_elapsed_spec(phase: ShutdownPhase, child: Option<ProcessHandle>) -> (
    ShutdownPhase,
    Action,
) {
    if phase != ShutdownPhase::Terminating {
        (phase, Action::Nothing)
    } else {
        match child {
            Some(handle) => (ShutdownPhase::Killing, Action::ForceKill(handle)),
            None => (ShutdownPhase::Complete, Action::Nothing),
        }
    }
}

/// What the host does next while a child that was asked to exit is watched.
#[derive(Clone, Copy, Debug, PartialEq, Eq, Structural)]
pub enum ExitWatch {
    /// Look again after `at_most_ms` at the latest.
    Wait { at_most_ms: u64 },
    /// Stop watching and post the event to the supervisor.
    Report(Event),
}

/// The next step of the watch over `handle`, `elapsed_ms` after it was asked
/// to exit: an exit is reported as soon as it is seen; without one, the end
/// of the grace period is reported once `grace_ms` have passed, and until
/// then the wait never reaches beyond that moment.
pub open spec fn exit_watch_spec(
    handle: ProcessHandle,
    grace_ms: u64,
    elapsed_ms: u64,
    exited: bool,
) -> ExitWatch {
    if exited {
        ExitWatch::Report(Event::ChildExited(handle))
    } else if elapsed_ms >= grace_ms {
        ExitWatch::Report(Event::GraceElapsed)
    } else {
        ExitWatch::Wait { at_most_ms: (grace_ms - elapsed_ms) as u64 }
    }
}

/// Decides the next step of the watch over a child that was asked to exit.
pub fn exit_watch(handle: ProcessHandle, grace_ms: u64, elapsed_ms: u64, exited: bool) -> (next:
    ExitWatch)
    ensures
        next == exit_watch_spec(handle, grace_ms, elapsed_ms, exited),
{
    if exited {
        ExitWatch::Report(Event::ChildExited(handle))
    } else if elapsed_ms >= grace_ms {
        ExitWatch::Report(Event::GraceElapsed)
    } else {
        ExitWatch::Wait { at_most_ms: grace_ms - elapsed_ms }
    }
}

/// Ends the child process: first by asking, after the grace period by force.
#[derive(Clone, Copy, Debug)]
pub struct ShutdownCoordinator {
    phase: ShutdownPhase,
}

impl View for ShutdownCoordinator {
    type V = ShutdownPhase;

    closed spec fn view(&self) -> ShutdownPhase {
        self.phase
    }
}

impl ShutdownCoordinator {
    /// A coordinator of which nothing was requested yet.
    pub fn new() -> (c: Self)
        ensures
            c@ == ShutdownPhase::Inactive,
    {
        ShutdownCoordinator { phase: ShutdownPhase::Inactive }
    }

    pub fn phase(&self) -> (p: ShutdownPhase)
        ensures
            p == self@,
    {
        self.phase
    }

    /// Whether the shutdown has ended with no child left.
    pub fn is_complete(&self) -> (done: bool)
        ensures
            done == (self@ == ShutdownPhase::Complete),
    {
        self.phase == ShutdownPhase::Complete
    }

    /// Starts the shutdown of `child`; a second request changes and orders
    /// nothing.
    pub fn request(
        &mut self,
        child: Option<ProcessHandle>,
        pending: Pending,
        grace_ms: u64,
    ) -> (action: Action)
        ensures
            (final(self)@, action) == request_spec(old(self)@, child, pending, grace_ms),
    {
        if self.phase != ShutdownPhase::Inactive {
            return Action::Nothing;
        }
        match child {
            Some(handle) => {
                self.phase = ShutdownPhase::Terminating;
                Action::Terminate { handle, grace_ms }
            },
            None => match pending {
                Pending::Launch => {
                    self.phase = ShutdownPhase::AwaitingLaunch;
                    Action::CancelLaunch
                },
                Pending::Backoff => {
                    self.phase = ShutdownPhase::Complete;
                    Action::CancelRestart
                },
                Pending::Nothing => {
                    self.phase = ShutdownPhase::Complete;
                    Action::Nothing
                },
            },
        }
    }

    /// Takes the result of the launch that was in flight when shutdown was
    /// requested.
    pub fn launch_resolved(&mut self, spawned: Option<ProcessHandle>, grace_ms: u64) -> (action:
        Action)
        ensures
            (final(self)@, action) == launch_resolved_spec(old(self)@, spawned, grace_ms),
    {
        if self.phase != ShutdownPhase::AwaitingLaunch {
            return Action::Nothing;
        }
        match spawned {
            Some(handle) => {
                self.phase = ShutdownPhase::Terminating;
                Action::Terminate { handle, grace_ms }
            },
            None => {
                self.phase = ShutdownPhase::Complete;
                Action::Nothing
            },
        }
    }

    /// Notes that the child has exited.
    pub fn child_exited(&mut self)
        ensures
            final(self)@ == child_exited_spec(old(self)@),
    {
        if self.phase == ShutdownPhase::Terminating || self.phase == ShutdownPhase::Killing {
            self.phase = ShutdownPhase::Complete;
        }
    }

    /// Notes that the grace period has passed without the child exiting.
    pub fn grace_elapsed(&mut self, child: Option<ProcessHandle>) -> (action: Action)
        ensures
            (final(self)@, action) == grace_elapsed_spec(old(self)@, child),
    {
        if self.phase != ShutdownPhase::Terminating {
            return Action::Nothing;
        }
        match child {
            Some(handle) => {
                self.phase = ShutdownPhase::Killing;
                Action::ForceKill(handle)
            },
            None => {
                self.phase = ShutdownPhase::Complete;
                Action::Nothing
            },
        }
    }
}

} // verus!
