use backend_supervisor::config::Config;
use backend_supervisor::event::Event;
use backend_supervisor::probe::{ProbeObservation, ProbeOutcome, ProbeStep, ReadinessProbe};
use backend_supervisor::process::ProcessHandle;

fn config(poll_interval_ms: u64, ready_timeout_ms: u64) -> Config {
    Config {
        command: String::from("server"),
        args: vec![],
        cwd: String::from("."),
        host: String::from("127.0.0.1"),
        port: 8000,
        readiness_path: String::from("/health"),
        poll_interval_ms,
        ready_timeout_ms,
        health_interval_ms: 1_000,
        max_restart_attempts: 3,
        base_delay_ms: 100,
        max_delay_ms: 1_000,
        min_uptime_ms: 5_000,
        shutdown_grace_ms: 2_000,
    }
}

fn failure(elapsed_ms: u64) -> ProbeObservation {
    ProbeObservation { elapsed_ms, success: false }
}

fn success(elapsed_ms: u64) -> ProbeObservation {
    ProbeObservation { elapsed_ms, success: true }
}

const HANDLE: ProcessHandle = ProcessHandle { id: 11 };

#[test]
fn probe_begins_undecided() {
    let probe = ReadinessProbe::new(HANDLE, &config(100, 2_000));
    assert_eq!(probe.handle(), HANDLE);
    assert_eq!(probe.outcome(), None);
    assert_eq!(probe.report(), None);
}

#[test]
fn probe_is_ready_on_first_success_before_timeout() {
    let mut probe = ReadinessProbe::new(HANDLE, &config(100, 2_000));
    assert_eq!(probe.observe(failure(0)), ProbeStep::Poll { after_ms: 100 });
    assert_eq!(probe.observe(failure(105)), ProbeStep::Poll { after_ms: 100 });
    assert_eq!(probe.observe(success(210)), ProbeStep::Finished(ProbeOutcome::Ready));
    assert_eq!(probe.outcome(), Some(ProbeOutcome::Ready));
    assert_eq!(probe.report(), Some(Event::ProbeSucceeded(HANDLE)));
}

#[test]
fn probe_success_just_before_timeout_is_ready() {
    let mut probe = ReadinessProbe::new(HANDLE, &config(100, 2_000));
    assert_eq!(probe.observe(success(1_999)), ProbeStep::Finished(ProbeOutcome::Ready));
}

#[test]
fn probe_success_at_the_timeout_is_too_late() {
    let mut probe = ReadinessProbe::new(HANDLE, &config(100, 2_000));
    assert_eq!(probe.observe(success(2_000)), ProbeStep::Finished(ProbeOutcome::Timeout));
    assert_eq!(probe.outcome(), Some(ProbeOutcome::Timeout));
    assert_eq!(probe.report(), Some(Event::ProbeTimedOut(HANDLE)));
}

#[test]
fn probe_times_out_when_nothing_answers() {
    let mut probe = ReadinessProbe::new(HANDLE, &config(500, 1_200));
    assert_eq!(probe.observe(failure(0)), ProbeStep::Poll { after_ms: 500 });
    assert_eq!(probe.observe(failure(500)), ProbeStep::Poll { after_ms: 500 });
    assert_eq!(probe.observe(failure(1_000)), ProbeStep::Poll { after_ms: 200 });
    assert_eq!(probe.observe(failure(1_200)), ProbeStep::Finished(ProbeOutcome::Timeout));
}

#[test]
fn probe_pause_is_cut_short_by_the_timeout() {
    let mut probe = ReadinessProbe::new(HANDLE, &config(1_000, 1_500));
    assert_eq!(probe.observe(failure(700)), ProbeStep::Poll { after_ms: 800 });
    assert_eq!(probe.observe(failure(1_499)), ProbeStep::Poll { after_ms: 1 });
}

#[test]
fn probe_with_zero_timeout_times_out_at_once() {
    let mut probe = ReadinessProbe::new(HANDLE, &config(100, 0));
    assert_eq!(probe.observe(success(0)), ProbeStep::Finished(ProbeOutcome::Timeout));
}

#[test]
fn probe_with_zero_interval_polls_without_pause() {
    let mut probe = ReadinessProbe::new(HANDLE, &config(0, 1_000));
    assert_eq!(probe.observe(failure(10)), ProbeStep::Poll { after_ms: 0 });
}

#[test]
fn probe_outcome_is_kept_once_decided() {
    let mut probe = ReadinessProbe::new(HANDLE, &config(100, 2_000));
    probe.observe(success(50));
    assert_eq!(probe.observe(failure(5_000)), ProbeStep::Finished(ProbeOutcome::Ready));
    assert_eq!(probe.cancel(), ProbeOutcome::Ready);
    assert_eq!(probe.outcome(), Some(ProbeOutcome::Ready));

    let mut late = ReadinessProbe::new(HANDLE, &config(100, 2_000));
    late.observe(failure(2_500));
    assert_eq!(late.observe(success(2_600)), ProbeStep::Finished(ProbeOutcome::Timeout));
}

#[test]
fn probe_cancelled_reports_cancellation_not_timeout() {
    let mut probe = ReadinessProbe::new(HANDLE, &config(100, 2_000));
    assert_eq!(probe.observe(failure(0)), ProbeStep::Poll { after_ms: 100 });
    assert_eq!(probe.cancel(), ProbeOutcome::Cancelled);
    assert_eq!(probe.outcome(), Some(ProbeOutcome::Cancelled));
    assert_eq!(probe.observe(failure(9_999)), ProbeStep::Finished(ProbeOutcome::Cancelled));
    assert_eq!(probe.observe(success(10)), ProbeStep::Finished(ProbeOutcome::Cancelled));
    assert_eq!(probe.report(), None);
}

#[test]
fn probe_is_ready_exactly_when_a_success_precedes_the_timeout() {
    let timeout = 1_000u64;
    let traces: Vec<(Vec<ProbeObservation>, Option<ProbeOutcome>)> = vec![
        (vec![], None),
        (vec![failure(0), failure(300)], None),
        (vec![failure(0), success(999)], Some(ProbeOutcome::Ready)),
        (vec![failure(0), success(1_000)], Some(ProbeOutcome::Timeout)),
        (vec![failure(0), failure(1_001), success(1_002)], Some(ProbeOutcome::Timeout)),
        (vec![success(0), failure(2_000)], Some(ProbeOutcome::Ready)),
        (vec![failure(400), failure(800), failure(1_200)], Some(ProbeOutcome::Timeout)),
    ];
    for (trace, expected) in traces {
        let mut probe = ReadinessProbe::new(HANDLE, &config(100, timeout));
        for obs in &trace {
            probe.observe(*obs);
        }
        let in_time = trace.iter().any(|o| o.success && o.elapsed_ms < timeout);
        assert_eq!(probe.outcome(), expected);
        assert_eq!(probe.outcome() == Some(ProbeOutcome::Ready), in_time);
    }
}
