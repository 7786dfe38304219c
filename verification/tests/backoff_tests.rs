use backend_supervisor::backoff::{delay_for_attempt, BackoffState};
use backend_supervisor::config::Policy;

fn policy(max_restart_attempts: u32, base_delay_ms: u64, max_delay_ms: u64) -> Policy {
    Policy { max_restart_attempts, base_delay_ms, max_delay_ms, shutdown_grace_ms: 0 }
}

#[test]
fn delay_doubles_with_each_attempt() {
    assert_eq!(delay_for_attempt(100, 10_000, 0), 100);
    assert_eq!(delay_for_attempt(100, 10_000, 1), 200);
    assert_eq!(delay_for_attempt(100, 10_000, 2), 400);
    assert_eq!(delay_for_attempt(100, 10_000, 3), 800);
    assert_eq!(delay_for_attempt(100, 10_000, 6), 6_400);
}

#[test]
fn delay_is_capped_at_the_maximum() {
    assert_eq!(delay_for_attempt(100, 1_000, 3), 800);
    assert_eq!(delay_for_attempt(100, 1_000, 4), 1_000);
    assert_eq!(delay_for_attempt(100, 1_000, 5), 1_000);
    assert_eq!(delay_for_attempt(100, 1_000, u32::MAX), 1_000);
    assert_eq!(delay_for_attempt(3, 10, 1), 6);
    assert_eq!(delay_for_attempt(3, 10, 2), 10);
}

#[test]
fn delay_with_a_base_above_the_maximum_is_the_maximum() {
    assert_eq!(delay_for_attempt(5_000, 1_000, 0), 1_000);
    assert_eq!(delay_for_attempt(5_000, 1_000, 7), 1_000);
    assert_eq!(delay_for_attempt(1_000, 1_000, 0), 1_000);
}

#[test]
fn delay_of_zero_base_or_zero_maximum_is_zero() {
    assert_eq!(delay_for_attempt(0, 1_000, 0), 0);
    assert_eq!(delay_for_attempt(0, 1_000, 40), 0);
    assert_eq!(delay_for_attempt(100, 0, 0), 0);
    assert_eq!(delay_for_attempt(100, 0, 9), 0);
    assert_eq!(delay_for_attempt(0, 0, u32::MAX), 0);
}

#[test]
fn delay_does_not_overflow_near_the_top_of_the_range() {
    let half = u64::MAX / 2;
    assert_eq!(delay_for_attempt(half, u64::MAX, 1), u64::MAX - 1);
    assert_eq!(delay_for_attempt(half + 1, u64::MAX, 1), u64::MAX);
    assert_eq!(delay_for_attempt(1, u64::MAX, 63), 1u64 << 63);
    assert_eq!(delay_for_attempt(1, u64::MAX, 64), u64::MAX);
    assert_eq!(delay_for_attempt(1, u64::MAX, 1_000_000), u64::MAX);
    assert_eq!(delay_for_attempt(u64::MAX, u64::MAX, 3), u64::MAX);
}

#[test]
fn delays_never_shrink_and_never_exceed_the_maximum() {
    for &(base, max) in &[(1u64, 1_000u64), (7, 5_000), (250, 30_000), (0, 10), (99, 98)] {
        let mut previous = 0u64;
        for attempt in 0..80u32 {
            let delay = delay_for_attempt(base, max, attempt);
            assert!(delay <= max);
            assert!(previous <= delay);
            previous = delay;
        }
    }
}

#[test]
fn backoff_state_starts_cleared() {
    let state = BackoffState::new();
    assert_eq!(state.attempt_count(), 0);
    assert_eq!(state.delay_ms(), 0);
}

#[test]
fn backoff_state_grants_attempts_up_to_the_budget() {
    let p = policy(3, 100, 350);
    let mut state = BackoffState::new();
    assert_eq!(state.next_attempt(&p), Some(100));
    assert_eq!(state.attempt_count(), 1);
    assert_eq!(state.delay_ms(), 100);
    assert_eq!(state.next_attempt(&p), Some(200));
    assert_eq!(state.next_attempt(&p), Some(350));
    assert_eq!(state.attempt_count(), 3);
    assert_eq!(state.delay_ms(), 350);
    assert_eq!(state.next_attempt(&p), None);
    assert_eq!(state.attempt_count(), 3);
    assert_eq!(state.delay_ms(), 350);
}

#[test]
fn backoff_state_with_no_budget_grants_nothing() {
    let p = policy(0, 100, 1_000);
    let mut state = BackoffState::new();
    assert_eq!(state.next_attempt(&p), None);
    assert_eq!(state.attempt_count(), 0);
}

#[test]
fn backoff_state_reset_clears_counter_and_delay() {
    let p = policy(2, 100, 1_000);
    let mut state = BackoffState::new();
    state.next_attempt(&p);
    state.next_attempt(&p);
    assert_eq!(state.next_attempt(&p), None);
    state.reset();
    assert_eq!(state.attempt_count(), 0);
    assert_eq!(state.delay_ms(), 0);
    assert_eq!(state.next_attempt(&p), Some(100));
}
