//! Static parameters of a supervised backend.

use vstd::prelude::*;

verus! {

/// How the backend is launched, probed, restarted and shut down.
///
/// A `Config` is created once at startup and never changed afterwards; the
/// components copy the numbers they need out of it.
#[derive(Clone, Debug)]
pub struct Config {
    /// Executable to run.
    pub command: String,
    /// Arguments handed to the executable.
    pub args: Vec<String>,
    /// Working directory of the child process.
    pub cwd: String,
    /// Host of the readiness and health endpoint.
    pub host: String,
    /// Port of the readiness and health endpoint.
    pub port: u16,
    /// Path of the readiness and health endpoint.
    pub readiness_path: String,
    /// Pause between two readiness probes.
    pub poll_interval_ms: u64,
    /// Longest wait for readiness.
    pub ready_timeout_ms: u64,
    /// Pause between two liveness checks while the backend runs.
    pub health_interval_ms: u64,
    /// Number of restarts allowed before the supervisor gives up.
    pub max_restart_attempts: u32,
    /// Delay before the first restart.
    pub base_delay_ms: u64,
    /// Upper bound of every restart delay.
    pub max_delay_ms: u64,
    /// Uninterrupted running time after which the restart counter is cleared.
    pub min_uptime_ms: u64,
    /// Time a child gets to exit on its own before it is killed.
    pub shutdown_grace_ms: u64,
}

/// The numbers of a [`Config`] that steer the supervisor's state machine.
#[derive(Clone, Copy, Debug, PartialEq, Eq, Structural)]
pub struct Policy {
    pub max_restart_attempts: u32,
    pub base_delay_ms: u64,
    pub max_delay_ms: u64,
    pub shutdown_grace_ms: u64,
}

impl Config {
    /// The restart and shutdown numbers of this configuration.
    pub open spec fn policy_of(self) -> Policy {
        Policy {
            max_restart_attempts: self.max_restart_attempts,
            base_delay_ms: self.base_delay_ms,
            max_delay_ms: self.max_delay_ms,
            shutdown_grace_ms: self.shutdown_grace_ms,
        }
    }

    /// Longest time a caller of shutdown waits for its completion: the grace
    /// period and a safety margin, or the largest number where their sum
    /// exceeds it.
    pub open spec fn shutdown_wait_limit(self, margin_ms: u64) -> u64 {
        if self.shutdown_grace_ms + margin_ms > u64::MAX {
            u64::MAX
        } else {
            (self.shutdown_grace_ms + margin_ms) as u64
        }
    }

    /// Longest time a caller of shutdown waits for its completion.
    pub fn shutdown_wait_limit_ms(&self, margin_ms: u64) -> (limit: u64)
        ensures
            limit == self.shutdown_wait_limit(margin_ms),
    {
        match self.shutdown_grace_ms.checked_add(margin_ms) {
            Some(sum) => sum,
            None => u64::MAX,
        }
    }

    /// Copies the restart and shutdown numbers out of the configuration.
    pub fn policy(&self) -> (p: Policy)
        ensures
            p == self.policy_of(),
    {
        Policy {
            max_restart_attempts: self.max_restart_attempts,
            base_delay_ms: self.base_delay_ms,
            max_delay_ms: self.max_delay_ms,
            shutdown_grace_ms: self.shutdown_grace_ms,
        }
    }
}

} // verus!
