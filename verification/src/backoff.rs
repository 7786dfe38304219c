//! Exponential backoff between restarts.

use vstd::prelude::*;
use vstd::arithmetic::power2::{lemma2_to64, lemma_pow2_pos, lemma_pow2_unfold, pow2};
use crate::config::Policy;

verus! {

/// The delay before restart number `attempt` (counted from zero): the base
/// delay doubled `attempt` times, capped at `max`.
pub open spec fn backoff_delay(base: nat, max: nat, attempt: nat) -> nat {
    if base * pow2(attempt) <= max {
        base * pow2(attempt)
    } else {
        max
    }
}

/// No restart delay exceeds the cap.
pub proof fn lemma_delay_bounded(base: nat, max: nat, attempt: nat)
    ensures
        backoff_delay(base, max, attempt) <= max,
{
}

/// One more attempt doubles the uncapped delay.
proof fn lemma_raw_delay_doubles(base: nat, attempt: nat)
    ensures
        base * pow2(attempt + 1) == 2 * (base * pow2(attempt)),
{
    lemma_pow2_unfold(attempt + 1);
    let p: nat = pow2(attempt);
    assert(base * (2 * p) == 2 * (base * p)) by (nonlinear_arith);
}

/// The delay of the next attempt is never shorter than that of this one.
pub proof fn lemma_delay_step(base: nat, max: nat, attempt: nat)
    ensures
        backoff_delay(base, max, attempt) <= backoff_delay(base, max, attempt + 1),
{
    lemma_raw_delay_doubles(base, attempt);
}

/// Restart delays never shrink from one attempt to a later one.
pub proof fn lemma_delay_nondecreasing(base: nat, max: nat, earlier: nat, later: nat)
    requires
        earlier <= later,
    ensures
        backoff_delay(base, max, earlier) <= backoff_delay(base, max, later),
    decreases later - earlier,
{
    if earlier < later {
        lemma_delay_nondecreasing(base, max, earlier, (later - 1) as nat);
        lemma_delay_step(base, max, (later - 1) as nat);
    }
}

/// Once the cap is reached, every later attempt waits exactly the cap.
proof fn lemma_delay_stays_capped(base: nat, max: nat, earlier: nat, later: nat)
    requires
        earlier <= later,
        backoff_delay(base, max, earlier) == max,
    ensures
        backoff_delay(base, max, later) == max,
{
    lemma_delay_nondecreasing(base, max, earlier, later);
    lemma_delay_bounded(base, max, later);
}

/// Computes the delay before restart number `attempt`.
pub fn delay_for_attempt(base_delay_ms: u64, max_delay_ms: u64, attempt: u32) -> (delay: u64)
    ensures
        delay == backoff_delay(base_delay_ms as nat, max_delay_ms as nat, attempt as nat),
{
    let ghost base = base_delay_ms as nat;
    let ghost max = max_delay_ms as nat;
    proof {
        assert(pow2(0) == 1) by {
            lemma2_to64();
        }
    }
    let mut delay: u64 = if base_delay_ms <= max_delay_ms { base_delay_ms } else { max_delay_ms };
    let mut done: u32 = 0;
    while done < attempt && 0 < delay && delay < max_delay_ms
        invariant
            done <= attempt,
            base == base_delay_ms as nat,
            max == max_delay_ms as nat,
            delay == backoff_delay(base, max, done as nat),
        decreases attempt - done,
    {
        proof {
            lemma_raw_delay_doubles(base, done as nat);
        }
        if delay > max_delay_ms / 2 {
            delay = max_delay_ms;
        } else {
            delay = delay * 2;
        }
        done = done + 1;
    }
    proof {
        if done < attempt {
            if delay == 0 {
                // Either the base is zero, and so is every delay, or the cap is.
                lemma_pow2_pos(done as nat);
                let p: nat = pow2(done as nat);
                if base != 0 {
                    assert(base * p >= base) by (nonlinear_arith)
                        requires
                            base > 0,
                            p > 0,
                    ;
                } else {
                    let q: nat = pow2(attempt as nat);
                    assert(base * q == 0) by (nonlinear_arith)
                        requires
                            base == 0,
                    ;
                }
            } else {
                lemma_delay_stays_capped(base, max, done as nat, attempt as nat);
            }
        }
    }
    delay
}

/// Attempt counter and the delay computed for the latest restart.
#[derive(Clone, Copy, Debug)]
pub struct BackoffState {
    attempt_count: u32,
    delay_ms: u64,
}

impl BackoffState {
    /// Number of restarts granted since the counter was last cleared.
    pub closed spec fn attempts(self) -> nat {
        self.attempt_count as nat
    }

    /// Delay granted with the latest restart; zero when none was granted.
    pub closed spec fn delay(self) -> nat {
        self.delay_ms as nat
    }

    /// A cleared counter.
    pub fn new() -> (b: Self)
        ensures
            b.attempts() == 0,
            b.delay() == 0,
    {
        BackoffState { attempt_count: 0, delay_ms: 0 }
    }

    pub fn attempt_count(&self) -> (n: u32)
        ensures
            n == self.attempts(),
    {
        self.attempt_count
    }

    pub fn delay_ms(&self) -> (d: u64)
        ensures
            d == self.delay(),
    {
        self.delay_ms
    }

    /// Clears the counter and the delay.
    pub fn reset(&mut self)
        ensures
            final(self).attempts() == 0,
            final(self).delay() == 0,
    {
        self.attempt_count = 0;
        self.delay_ms = 0;
    }

    /// Grants one more restart if the budget allows it, and says how long to
    /// wait before it; leaves the state untouched when the budget is spent.
    pub fn next_attempt(&mut self, policy: &Policy) -> (granted: Option<u64>)
        ensures
            old(self).attempts() < policy.max_restart_attempts ==> {
                &&& granted == Some(
                    backoff_delay(
                        policy.base_delay_ms as nat,
                        policy.max_delay_ms as nat,
                        old(self).attempts(),
                    ) as u64,
                )
                &&& final(self).attempts() == old(self).attempts() + 1
                &&& final(self).delay() == backoff_delay(
                    policy.base_delay_ms as nat,
                    policy.max_delay_ms as nat,
                    old(self).attempts(),
                )
            },
            old(self).attempts() >= policy.max_restart_attempts ==> {
                &&& granted is None
                &&& *final(self) == *old(self)
            },
    {
        if self.attempt_count < policy.max_restart_attempts {
            let delay: u64 = delay_for_attempt(
                policy.base_delay_ms,
                policy.max_delay_ms,
                self.attempt_count,
            );
            self.attempt_count = self.attempt_count + 1;
            self.delay_ms = delay;
            Some(delay)
        } else {
            None
        }
    }
}

} // verus!
