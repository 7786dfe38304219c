//! What can go wrong while supervising.

use vstd::prelude::*;
use crate::process::LaunchError;

verus! {

/// The failures the supervisor records.
#[derive(Clone, Copy, Debug, PartialEq, Eq, Structural)]
pub enum SupervisorError {
    /// The process could not be created.
    Launch(LaunchError),
    /// The backend did not become reachable in time.
    ReadinessTimeout,
    /// The backend stopped or stopped answering while it was running.
    Crash,
    /// The restart budget is spent.
    RestartExhausted,
    /// The child did not exit within the grace period and had to be killed.
    ShutdownTimeout,
}

impl SupervisorError {
    /// Whether the error ends supervision and has to be shown to the user.
    pub open spec fn terminal(self) -> bool {
        self is Launch || self is RestartExhausted
    }

    /// Whether the error ends supervision and has to be shown to the user:
    /// true of a failed launch and of a spent restart budget; the others are
    /// answered by a restart or a forced kill and only logged.
    pub fn is_terminal(&self) -> (t: bool)
        ensures
            t == self.terminal(),
    {
        match self {
            SupervisorError::Launch(_) => true,
            SupervisorError::RestartExhausted => true,
            SupervisorError::ReadinessTimeout => false,
            SupervisorError::Crash => false,
            SupervisorError::ShutdownTimeout => false,
        }
    }
}

} // verus!
