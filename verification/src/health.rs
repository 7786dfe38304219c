//! Watching a running backend.

use vstd::prelude::*;
use crate::config::Config;
use crate::event::Event;
use crate::process::ProcessHandle;

verus! {

/// What one liveness check found.
#[derive(Clone, Copy, Debug, PartialEq, Eq, Structural)]
pub enum HealthStatus {
    /// The process lives and answers.
    Alive,
    /// The process has exited.
    Exited,
    /// The process lives but does not answer.
    Unresponsive,
}

/// What a check found, from whether the process has exited and whether the
/// endpoint answered: an exited process is `Exited` whatever was answered.
pub open spec fn status_of(exited: bool, answered: bool) -> HealthStatus {
    if exited {
        HealthStatus::Exited
    } else if answered {
        HealthStatus::Alive
    } else {
        HealthStatus::Unresponsive
    }
}

/// Judges one liveness check.
pub fn health_status(exited: bool, answered: bool) -> (status: HealthStatus)
    ensures
        status == status_of(exited, answered),
{
    if exited {
        HealthStatus::Exited
    } else if answered {
        HealthStatus::Alive
    } else {
        HealthStatus::Unresponsive
    }
}

/// One liveness check.
#[derive(Clone, Copy, Debug, PartialEq, Eq, Structural)]
pub struct HealthCheck {
    /// Time since the backend became ready at which the check was made.
    pub uptime_ms: u64,
    pub status: HealthStatus,
}

/// A monitor, as mathematical values.
pub struct HealthView {
    pub handle: ProcessHandle,
    pub interval_ms: u64,
    pub min_uptime_ms: u64,
    /// Whether the monitor still watches; it stops with the first crash it
    /// reports and when it is told to.
    pub active: bool,
    /// Whether the minimum uptime was reported.
    pub uptime_reported: bool,
}

/// A monitor that has just begun to watch `handle`.
pub open spec fn watch_begun(handle: ProcessHandle, config: Config) -> HealthView {
    HealthView {
        handle,
        interval_ms: config.health_interval_ms,
        min_uptime_ms: config.min_uptime_ms,
        active: true,
        uptime_reported: false,
    }
}

/// The monitor after one check, and the event to post, if any.
///
/// A stopped monitor reports nothing. A process found exited or unresponsive
/// is reported as crashed, and the monitor stops. A process found alive at
/// or after the minimum uptime is reported once as having reached it.
pub open spec fn health_step(v: HealthView, check: HealthCheck) -> (HealthView, Option<Event>) {
    if !v.active {
        (v, None)
    } else if check.status != HealthStatus::Alive {
        (HealthView { active: false, ..v }, Some(Event::CrashDetected(v.handle)))
    } else if !v.uptime_reported && check.uptime_ms >= v.min_uptime_ms {
        (HealthView { uptime_reported: true, ..v }, Some(Event::UptimeReached(v.handle)))
    } else {
        (v, None)
    }
}

/// The monitor after the checks `checks`, in order.
pub open spec fn health_run(v: HealthView, checks: Seq<HealthCheck>) -> HealthView
    decreases checks.len(),
{
    if checks.len() == 0 {
        v
    } else {
        health_step(health_run(v, checks.drop_last()), checks.last()).0
    }
}

/// Number of crashes reported over the checks `checks`.
pub open spec fn crashes_reported(v: HealthView, checks: Seq<HealthCheck>) -> nat
    decreases checks.len(),
{
    if checks.len() == 0 {
        0
    } else {
        let before = crashes_reported(v, checks.drop_last());
        if health_step(health_run(v, checks.drop_last()), checks.last()).1 is Some
            && health_step(health_run(v, checks.drop_last()), checks.last()).1->0
            is CrashDetected {
            before + 1
        } else {
            before
        }
    }
}

/// Whether some check found the process exited or unresponsive.
pub open spec fn failure_seen(checks: Seq<HealthCheck>) -> bool {
    exists|i: int| 0 <= i < checks.len() && (#[trigger] checks[i]).status != HealthStatus::Alive
}

/// A crash is reported exactly once: a watching monitor reports one crash if
/// some check finds the process exited or unresponsive, however many checks
/// follow, and none otherwise. It watches for as long as it has reported
/// none.
pub proof fn lemma_crash_reported_exactly_once(v: HealthView, checks: Seq<HealthCheck>)
    requires
        v.active,
    ensures
        crashes_reported(v, checks) == if failure_seen(checks) { 1nat } else { 0nat },
        health_run(v, checks).active <==> !failure_seen(checks),
        health_run(v, checks).handle == v.handle,
    decreases checks.len(),
{
    if checks.len() > 0 {
        let earlier = checks.drop_last();
        let n = checks.len() - 1;
        assert(checks.last() == checks[n]);
        assert forall|i: int| 0 <= i < earlier.len() implies earlier[i] == checks[i] by {}
        lemma_crash_reported_exactly_once(v, earlier);
        if failure_seen(earlier) {
            let i = choose|i: int|
                0 <= i < earlier.len() && (#[trigger] earlier[i]).status != HealthStatus::Alive;
            assert(checks[i].status != HealthStatus::Alive);
        }
        if failure_seen(checks) && !failure_seen(earlier) {
            let i = choose|i: int|
                0 <= i < checks.len() && (#[trigger] checks[i]).status != HealthStatus::Alive;
            if i < n {
                assert(earlier[i].status != HealthStatus::Alive);
            }
            assert(i == n);
        }
        if checks[n].status != HealthStatus::Alive {
            assert(failure_seen(checks));
        }
    }
}

/// A stopped monitor reports nothing, whatever the checks find.
pub proof fn lemma_stopped_monitor_is_silent(v: HealthView, check: HealthCheck)
    requires
        !v.active,
    ensures
        health_step(v, check) == (v, None::<Event>),
{
}

/// Watches a running backend and reports its crash, once.
#[derive(Clone, Copy, Debug)]
pub struct HealthMonitor {
    handle: ProcessHandle,
    interval_ms: u64,
    min_uptime_ms: u64,
    active: bool,
    uptime_reported: bool,
}

impl View for HealthMonitor {
    type V = HealthView;

    closed spec fn view(&self) -> HealthView {
        HealthView {
            handle: self.handle,
            interval_ms: self.interval_ms,
            min_uptime_ms: self.min_uptime_ms,
            active: self.active,
            uptime_reported: self.uptime_reported,
        }
    }
}

impl HealthMonitor {
    /// Begins to watch `handle`, which has just become ready.
    pub fn new(handle: ProcessHandle, config: &Config) -> (monitor: Self)
        ensures
            monitor@ == watch_begun(handle, *config),
    {
        HealthMonitor {
            handle,
            interval_ms: config.health_interval_ms,
            min_uptime_ms: config.min_uptime_ms,
            active: true,
            uptime_reported: false,
        }
    }

    /// The process that is watched.
    pub fn handle(&self) -> (handle: ProcessHandle)
        ensures
            handle == self@.handle,
    {
        self.handle
    }

    /// Pause between two checks.
    pub fn interval_ms(&self) -> (interval: u64)
        ensures
            interval == self@.interval_ms,
    {
        self.interval_ms
    }

    /// Whether the monitor still watches.
    pub fn is_active(&self) -> (active: bool)
        ensures
            active == self@.active,
    {
        self.active
    }

    /// Stops watching, as when the backend leaves `Running` for a shutdown.
    pub fn stop(&mut self)
        ensures
            final(self)@ == (HealthView { active: false, ..old(self)@ }),
    {
        self.active = false;
    }

    /// Takes one check and returns the event to post to the supervisor, if
    /// any.
    pub fn check(&mut self, check: HealthCheck) -> (event: Option<Event>)
        ensures
            (final(self)@, event) == health_step(old(self)@, check),
    {
        if !self.active {
            None
        } else if check.status != HealthStatus::Alive {
            self.active = false;
            Some(Event::CrashDetected(self.handle))
        } else if !self.uptime_reported && check.uptime_ms >= self.min_uptime_ms {
            self.uptime_reported = true;
            Some(Event::UptimeReached(self.handle))
        } else {
            None
        }
    }
}

} // verus!
