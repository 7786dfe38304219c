//! The supervisor's states, the events it reacts to and the actions it orders.

use vstd::prelude::*;
use crate::config::Policy;
use crate::error::SupervisorError;
use crate::process::{LaunchError, ProcessHandle};

verus! {

/// Lifecycle state of the supervisor.
#[derive(Clone, Copy, Debug, PartialEq, Eq, Structural)]
pub enum SupervisorState {
    /// Nothing was started yet.
    Idle,
    /// A launch was ordered and its result is awaited.
    Launching,
    /// The process exists and is probed for readiness.
    WaitingReady,
    /// The backend answered and is watched.
    Running,
    /// The backoff delay before the next launch is running.
    Restarting,
    /// Shutdown was requested and is not complete.
    ShuttingDown,
    /// Shutdown is complete.
    Stopped,
    /// Supervision ended with an error.
    Failed,
}

/// What is reported to the supervisor.
#[derive(Clone, Copy, Debug, PartialEq, Eq, Structural)]
pub enum Event {
    /// The host asks for the backend to be started under the given policy.
    Start(Policy),
    /// The host asks for shutdown.
    Shutdown,
    /// The ordered launch created the given process.
    LaunchSucceeded(ProcessHandle),
    /// The ordered launch created no process.
    LaunchFailed(LaunchError),
    /// The readiness probe of the given process reported `Ready`.
    ProbeSucceeded(ProcessHandle),
    /// The readiness probe of the given process reported `Timeout`.
    ProbeTimedOut(ProcessHandle),
    /// The given process was found alive after the minimum uptime.
    UptimeReached(ProcessHandle),
    /// The given process exited or stopped answering while it was running.
    CrashDetected(ProcessHandle),
    /// The backoff delay has passed.
    BackoffElapsed,
    /// The given process was seen to have exited.
    ChildExited(ProcessHandle),
    /// The grace period of the shutdown has passed.
    GraceElapsed,
}

/// What the host has to do after an event was handled.
#[derive(Clone, Copy, Debug, PartialEq, Eq, Structural)]
pub enum Action {
    /// Nothing.
    Nothing,
    /// Create the process and report `LaunchSucceeded` or `LaunchFailed`.
    Launch,
    /// Probe the process for readiness and report `ProbeSucceeded` or
    /// `ProbeTimedOut`.
    AwaitReady(ProcessHandle),
    /// Watch the process and report `UptimeReached` and `CrashDetected`.
    Monitor(ProcessHandle),
    /// Make sure `dispose` is dead, wait `delay_ms`, then report
    /// `BackoffElapsed`.
    Restart { dispose: ProcessHandle, delay_ms: u64, cause: SupervisorError },
    /// Make sure `remaining` is dead if there is one, and show `error` to the
    /// user.
    GiveUp { remaining: Option<ProcessHandle>, error: SupervisorError },
    /// Ask the process to exit and report `ChildExited`, or `GraceElapsed`
    /// once `grace_ms` have passed without it.
    Terminate { handle: ProcessHandle, grace_ms: u64 },
    /// Kill the process and report `ChildExited`.
    ForceKill(ProcessHandle),
    /// Abandon the launch in flight; report its result all the same.
    CancelLaunch,
    /// Abandon the backoff delay in progress.
    CancelRestart,
}

impl Action {
    /// Whether the action orders a new process to be created.
    pub open spec fn launches(self) -> bool {
        self is Launch
    }

    /// Whether the action touches a process: creates, signals or kills one.
    pub open spec fn touches_process(self) -> bool {
        match self {
            Action::Launch => true,
            Action::Restart { .. } => true,
            Action::GiveUp { remaining, .. } => remaining is Some,
            Action::Terminate { .. } => true,
            Action::ForceKill(_) => true,
            _ => false,
        }
    }
}

/// The state after an event and the action it calls for.
#[derive(Clone, Copy, Debug, PartialEq, Eq, Structural)]
pub struct Transition {
    pub state: SupervisorState,
    pub action: Action,
}

/// The event that reports the result of a launch.
pub open spec fn launch_event_of(result: Result<ProcessHandle, LaunchError>) -> Event {
    match result {
        Ok(handle) => Event::LaunchSucceeded(handle),
        Err(error) => Event::LaunchFailed(error),
    }
}

/// The event by which the result of a launch is reported to the supervisor.
pub fn launch_event(result: Result<ProcessHandle, LaunchError>) -> (event: Event)
    ensures
        event == launch_event_of(result),
{
    match result {
        Ok(handle) => Event::LaunchSucceeded(handle),
        Err(error) => Event::LaunchFailed(error),
    }
}

} // verus!
