//! Waiting for the backend to become ready.

use vstd::prelude::*;
use crate::config::Config;
use crate::event::Event;
use crate::process::ProcessHandle;

verus! {

/// How a wait for readiness ended.
#[derive(Clone, Copy, Debug, PartialEq, Eq, Structural)]
pub enum ProbeOutcome {
    /// A probe was answered before the timeout.
    Ready,
    /// The timeout passed without an answer.
    Timeout,
    /// The wait was called off.
    Cancelled,
}

/// What the host has to do next while waiting for readiness.
#[derive(Clone, Copy, Debug, PartialEq, Eq, Structural)]
pub enum ProbeStep {
    /// Wait `after_ms`, probe once more and hand in the observation.
    Poll { after_ms: u64 },
    /// Stop probing; the wait has ended.
    Finished(ProbeOutcome),
}

/// One probe of the readiness endpoint.
#[derive(Clone, Copy, Debug, PartialEq, Eq, Structural)]
pub struct ProbeObservation {
    /// Time since the wait began at which the answer, or its absence, was
    /// seen.
    pub elapsed_ms: u64,
    /// Whether the endpoint answered successfully.
    pub success: bool,
}

/// A wait for readiness, as mathematical values.
pub struct ProbeView {
    pub handle: ProcessHandle,
    pub poll_interval_ms: u64,
    pub timeout_ms: u64,
    /// How the wait ended, once it has.
    pub outcome: Option<ProbeOutcome>,
}

/// A wait for `handle` that has just begun.
pub open spec fn probe_begun(handle: ProcessHandle, config: Config) -> ProbeView {
    ProbeView {
        handle,
        poll_interval_ms: config.poll_interval_ms,
        timeout_ms: config.ready_timeout_ms,
        outcome: None,
    }
}

/// The pause before the next probe: the poll interval, cut short where the
/// timeout comes first.
pub open spec fn next_pause(v: ProbeView, elapsed_ms: u64) -> u64 {
    if v.timeout_ms - elapsed_ms < v.poll_interval_ms {
        (v.timeout_ms - elapsed_ms) as u64
    } else {
        v.poll_interval_ms
    }
}

/// The wait after one observation, and what to do next.
///
/// A wait that has ended stays as it ended. Otherwise an observation made at
/// or after the timeout ends it with `Timeout`, whatever the probe said; a
/// success before the timeout ends it with `Ready`; a failure before the
/// timeout asks for another probe.
pub open spec fn probe_step(v: ProbeView, obs: ProbeObservation) -> (ProbeView, ProbeStep) {
    match v.outcome {
        Some(outcome) => (v, ProbeStep::Finished(outcome)),
        None => if obs.elapsed_ms >= v.timeout_ms {
            (
                ProbeView { outcome: Some(ProbeOutcome::Timeout), ..v },
                ProbeStep::Finished(ProbeOutcome::Timeout),
            )
        } else if obs.success {
            (
                ProbeView { outcome: Some(ProbeOutcome::Ready), ..v },
                ProbeStep::Finished(ProbeOutcome::Ready),
            )
        } else {
            (v, ProbeStep::Poll { after_ms: next_pause(v, obs.elapsed_ms) })
        },
    }
}

/// The wait after it was called off: cancelled, unless it had ended before.
pub open spec fn probe_cancelled(v: ProbeView) -> ProbeView {
    match v.outcome {
        Some(_) => v,
        None => ProbeView { outcome: Some(ProbeOutcome::Cancelled), ..v },
    }
}

/// The event by which the end of the wait is reported to the supervisor; a
/// cancelled or unfinished wait reports nothing.
pub open spec fn probe_report(v: ProbeView) -> Option<Event> {
    match v.outcome {
        Some(ProbeOutcome::Ready) => Some(Event::ProbeSucceeded(v.handle)),
        Some(ProbeOutcome::Timeout) => Some(Event::ProbeTimedOut(v.handle)),
        _ => None,
    }
}

/// The wait after the observations `seen`, in order.
pub open spec fn probe_run(v: ProbeView, seen: Seq<ProbeObservation>) -> ProbeView
    decreases seen.len(),
{
    if seen.len() == 0 {
        v
    } else {
        probe_step(probe_run(v, seen.drop_last()), seen.last()).0
    }
}

/// Whether the observations are listed in the order of their times.
pub open spec fn in_time_order(seen: Seq<ProbeObservation>) -> bool {
    forall|i: int, j: int|
        0 <= i <= j < seen.len() ==> (#[trigger] seen[i]).elapsed_ms <= (#[trigger] seen[j]).elapsed_ms
}

/// Whether some probe succeeded strictly before the timeout.
pub open spec fn succeeded_in_time(timeout_ms: u64, seen: Seq<ProbeObservation>) -> bool {
    exists|i: int|
        0 <= i < seen.len() && (#[trigger] seen[i]).success && seen[i].elapsed_ms < timeout_ms
}

/// Whether some observation was made at or after the timeout.
pub open spec fn deadline_passed(timeout_ms: u64, seen: Seq<ProbeObservation>) -> bool {
    exists|i: int| 0 <= i < seen.len() && (#[trigger] seen[i]).elapsed_ms >= timeout_ms
}

/// A wait that is not called off ends with `Ready` if and only if a probe
/// succeeded strictly before the timeout; it ends with `Timeout` if and only
/// if none did and the timeout has passed; and it goes on otherwise.
pub proof fn lemma_ready_iff_success_in_time(v: ProbeView, seen: Seq<ProbeObservation>)
    requires
        v.outcome is None,
        in_time_order(seen),
    ensures
        probe_run(v, seen).outcome == Some(ProbeOutcome::Ready) <==> succeeded_in_time(
            v.timeout_ms,
            seen,
        ),
        probe_run(v, seen).outcome == Some(ProbeOutcome::Timeout) <==> !succeeded_in_time(
            v.timeout_ms,
            seen,
        ) && deadline_passed(v.timeout_ms, seen),
        probe_run(v, seen).outcome is None <==> !succeeded_in_time(v.timeout_ms, seen)
            && !deadline_passed(v.timeout_ms, seen),
        probe_run(v, seen).outcome != Some(ProbeOutcome::Cancelled),
        probe_run(v, seen).handle == v.handle,
        probe_run(v, seen).timeout_ms == v.timeout_ms,
        probe_run(v, seen).poll_interval_ms == v.poll_interval_ms,
    decreases seen.len(),
{
    if seen.len() > 0 {
        let earlier = seen.drop_last();
        let last = seen.last();
        let n = seen.len() - 1;
        assert(last == seen[n]);
        assert forall|i: int| 0 <= i < earlier.len() implies earlier[i] == seen[i] by {}
        assert(in_time_order(earlier)) by {
            assert forall|i: int, j: int| 0 <= i <= j < earlier.len() implies (
            #[trigger] earlier[i]).elapsed_ms <= (#[trigger] earlier[j]).elapsed_ms by {
                assert(seen[i].elapsed_ms <= seen[j].elapsed_ms);
            }
        }
        lemma_ready_iff_success_in_time(v, earlier);
        let t = v.timeout_ms;
        if succeeded_in_time(t, earlier) {
            let i = choose|i: int|
                0 <= i < earlier.len() && (#[trigger] earlier[i]).success && earlier[i].elapsed_ms
                    < t;
            assert(seen[i].success && seen[i].elapsed_ms < t);
        }
        if deadline_passed(t, earlier) {
            let i = choose|i: int| 0 <= i < earlier.len() && (#[trigger] earlier[i]).elapsed_ms >= t;
            assert(seen[i].elapsed_ms >= t);
            assert(seen[i].elapsed_ms <= seen[n].elapsed_ms);
        }
        if succeeded_in_time(t, seen) && !succeeded_in_time(t, earlier) {
            let i = choose|i: int|
                0 <= i < seen.len() && (#[trigger] seen[i]).success && seen[i].elapsed_ms < t;
            if i < n {
                assert(earlier[i].success && earlier[i].elapsed_ms < t);
            }
            assert(i == n);
            if deadline_passed(t, earlier) {
                let k = choose|k: int|
                    0 <= k < earlier.len() && (#[trigger] earlier[k]).elapsed_ms >= t;
                assert(seen[k].elapsed_ms <= seen[n].elapsed_ms);
            }
        }
        if deadline_passed(t, seen) && !deadline_passed(t, earlier) {
            let i = choose|i: int| 0 <= i < seen.len() && (#[trigger] seen[i]).elapsed_ms >= t;
            if i < n {
                assert(earlier[i].elapsed_ms >= t);
            }
            assert(i == n);
        }
        if last.elapsed_ms >= t {
            assert(seen[n].elapsed_ms >= t);
        } else if last.success {
            assert(seen[n].success && seen[n].elapsed_ms < t);
        }
    }
}

/// Whether every observation but the first was made no earlier than the
/// pause ordered after the one before it.
pub open spec fn pauses_kept(v: ProbeView, seen: Seq<ProbeObservation>) -> bool {
    forall|i: int|
        0 <= i < seen.len() - 1 ==> (#[trigger] seen[i]).elapsed_ms < v.timeout_ms ==> seen[i
            + 1].elapsed_ms >= seen[i].elapsed_ms + next_pause(v, seen[i].elapsed_ms)
}

/// With a poll interval above zero, the observation number `i` of a wait
/// that keeps its pauses is made `i` intervals after the beginning or later,
/// unless the timeout has come before.
proof fn lemma_time_advances(v: ProbeView, seen: Seq<ProbeObservation>, i: int)
    requires
        in_time_order(seen),
        pauses_kept(v, seen),
        0 <= i < seen.len(),
    ensures
        seen[i].elapsed_ms >= v.timeout_ms || seen[i].elapsed_ms >= i * v.poll_interval_ms,
    decreases i,
{
    if i > 0 {
        lemma_time_advances(v, seen, i - 1);
        let before = seen[i - 1];
        assert(before.elapsed_ms <= seen[i].elapsed_ms);
        assert(i * v.poll_interval_ms == (i - 1) * v.poll_interval_ms + v.poll_interval_ms)
            by (nonlinear_arith);
    } else {
        assert(0 * v.poll_interval_ms == 0);
    }
}

/// The wait ends: with a poll interval above zero, a wait that keeps its
/// pauses and is not called off has ended, with `Ready` or with `Timeout`,
/// once enough probes were made for their pauses to fill the timeout.
pub proof fn lemma_wait_ends_by_timeout(v: ProbeView, seen: Seq<ProbeObservation>)
    requires
        v.outcome is None,
        in_time_order(seen),
        pauses_kept(v, seen),
        seen.len() > 0,
        (seen.len() - 1) * v.poll_interval_ms >= v.timeout_ms,
    ensures
        probe_run(v, seen).outcome == Some(ProbeOutcome::Ready) || probe_run(v, seen).outcome
            == Some(ProbeOutcome::Timeout),
        probe_run(v, seen).outcome == Some(ProbeOutcome::Timeout) <==> !succeeded_in_time(
            v.timeout_ms,
            seen,
        ),
{
    let n = seen.len() - 1;
    lemma_time_advances(v, seen, n);
    assert(seen[n].elapsed_ms >= v.timeout_ms);
    assert(deadline_passed(v.timeout_ms, seen));
    lemma_ready_iff_success_in_time(v, seen);
}

/// Polls the backend's readiness endpoint until it answers or the timeout
/// passes. The probe decides; the host probes and waits as it is told.
#[derive(Clone, Copy, Debug)]
pub struct ReadinessProbe {
    handle: ProcessHandle,
    poll_interval_ms: u64,
    timeout_ms: u64,
    outcome: Option<ProbeOutcome>,
}

impl View for ReadinessProbe {
    type V = ProbeView;

    closed spec fn view(&self) -> ProbeView {
        ProbeView {
            handle: self.handle,
            poll_interval_ms: self.poll_interval_ms,
            timeout_ms: self.timeout_ms,
            outcome: self.outcome,
        }
    }
}

impl ReadinessProbe {
    /// Begins the wait for `handle`; the first probe is due at once.
    pub fn new(handle: ProcessHandle, config: &Config) -> (probe: Self)
        ensures
            probe@ == probe_begun(handle, *config),
    {
        ReadinessProbe {
            handle,
            poll_interval_ms: config.poll_interval_ms,
            timeout_ms: config.ready_timeout_ms,
            outcome: None,
        }
    }

    /// The process that is waited for.
    pub fn handle(&self) -> (handle: ProcessHandle)
        ensures
            handle == self@.handle,
    {
        self.handle
    }

    /// How the wait ended, once it has.
    pub fn outcome(&self) -> (outcome: Option<ProbeOutcome>)
        ensures
            outcome == self@.outcome,
    {
        self.outcome
    }

    /// Takes one observation and says what to do next.
    pub fn observe(&mut self, obs: ProbeObservation) -> (next: ProbeStep)
        ensures
            (final(self)@, next) == probe_step(old(self)@, obs),
    {
        match self.outcome {
            Some(outcome) => ProbeStep::Finished(outcome),
            None => {
                if obs.elapsed_ms >= self.timeout_ms {
                    self.outcome = Some(ProbeOutcome::Timeout);
                    ProbeStep::Finished(ProbeOutcome::Timeout)
                } else if obs.success {
                    self.outcome = Some(ProbeOutcome::Ready);
                    ProbeStep::Finished(ProbeOutcome::Ready)
                } else {
                    let left: u64 = self.timeout_ms - obs.elapsed_ms;
                    let after_ms: u64 = if left < self.poll_interval_ms {
                        left
                    } else {
                        self.poll_interval_ms
                    };
                    ProbeStep::Poll { after_ms }
                }
            },
        }
    }

    /// Calls the wait off. A wait that has ended keeps its outcome.
    pub fn cancel(&mut self) -> (outcome: ProbeOutcome)
        ensures
            final(self)@ == probe_cancelled(old(self)@),
            final(self)@.outcome == Some(outcome),
    {
        match self.outcome {
            Some(outcome) => outcome,
            None => {
                self.outcome = Some(ProbeOutcome::Cancelled);
                ProbeOutcome::Cancelled
            },
        }
    }

    /// The event to post to the supervisor: `ProbeSucceeded` after `Ready`,
    /// `ProbeTimedOut` after `Timeout`, none while the wait goes on or after
    /// it was called off.
    pub fn report(&self) -> (event: Option<Event>)
        ensures
            event == probe_report(self@),
    {
        match self.outcome {
            Some(ProbeOutcome::Ready) => Some(Event::ProbeSucceeded(self.handle)),
            Some(ProbeOutcome::Timeout) => Some(Event::ProbeTimedOut(self.handle)),
            _ => None,
        }
    }
}

} // verus!
