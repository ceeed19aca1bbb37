//! Retry state of the supervisor: how many cycles in a row have failed, and the
//! exponential backoff, with a ceiling, that follows a failure.
use vstd::arithmetic::power2::{lemma2_to64, lemma_pow2_strictly_increases, lemma_pow2_unfold, pow2};
use vstd::prelude::*;

verus! {

/// Timing of the supervisor, in seconds: the pause after a successful cycle,
/// and the first and the largest pause after a failed one.
#[derive(Debug, Clone, Copy, PartialEq, Eq, Structural)]
pub struct RetryPolicy {
    pub poll_interval_secs: u64,
    pub initial_delay_secs: u64,
    pub max_delay_secs: u64,
}

/// Pause after a successful cycle.
pub const POLL_INTERVAL_SECS: u64 = 10;

/// Pause after the first failure of a streak.
pub const INITIAL_DELAY_SECS: u64 = 10;

/// Ceiling of the pause after a failure.
pub const MAX_DELAY_SECS: u64 = 300;

impl Default for RetryPolicy {
    fn default() -> (r: RetryPolicy)
        ensures
            r.poll_interval_secs == POLL_INTERVAL_SECS,
            r.initial_delay_secs == INITIAL_DELAY_SECS,
            r.max_delay_secs == MAX_DELAY_SECS,
    {
        RetryPolicy {
            poll_interval_secs: POLL_INTERVAL_SECS,
            initial_delay_secs: INITIAL_DELAY_SECS,
            max_delay_secs: MAX_DELAY_SECS,
        }
    }
}

/// `min(initial * 2^(retry_count - 1), max)`: the pause after the
/// `retry_count`-th failure in a row.
pub open spec fn backoff_spec(initial: nat, max: nat, retry_count: nat) -> nat
    recommends
        retry_count >= 1,
{
    let grown = initial * pow2((retry_count - 1) as nat);
    if grown <= max {
        grown
    } else {
        max
    }
}

proof fn lemma_backoff_doubles(initial: nat, max: nat, n: nat)
    requires
        n >= 1,
    ensures
        backoff_spec(initial, max, n) < max ==> backoff_spec(initial, max, n + 1) == if 2
            * backoff_spec(initial, max, n) <= max {
            2 * backoff_spec(initial, max, n)
        } else {
            max
        },
        backoff_spec(initial, max, n) >= max ==> backoff_spec(initial, max, n + 1) == max,
{
    lemma_pow2_unfold(n);
    let p = pow2((n - 1) as nat);
    assert(initial * (2 * p) == 2 * (initial * p)) by (nonlinear_arith);
}

proof fn lemma_backoff_capped(initial: nat, max: nat, m: nat, n: nat)
    requires
        1 <= m <= n,
        backoff_spec(initial, max, m) >= max,
    ensures
        backoff_spec(initial, max, n) == max,
{
    if m < n {
        lemma_pow2_strictly_increases((m - 1) as nat, (n - 1) as nat);
    }
    let a = pow2((m - 1) as nat);
    let b = pow2((n - 1) as nat);
    assert(a <= b ==> initial * a <= initial * b) by (nonlinear_arith);
}

/// Returns the pause, in seconds, after the `retry_count`-th failure in a row.
pub fn backoff_delay(policy: &RetryPolicy, retry_count: u64) -> (r: u64)
    requires
        retry_count >= 1,
    ensures
        r == backoff_spec(
            policy.initial_delay_secs as nat,
            policy.max_delay_secs as nat,
            retry_count as nat,
        ),
{
    let initial = policy.initial_delay_secs;
    let max = policy.max_delay_secs;
    let ghost i_n = initial as nat;
    let ghost m_n = max as nat;
    if initial == 0 {
        assert(backoff_spec(i_n, m_n, retry_count as nat) == 0) by {
            assert(0 * pow2((retry_count - 1) as nat) == 0) by (nonlinear_arith);
        }
        return 0;
    }
    let mut delay: u64 = if initial <= max {
        initial
    } else {
        max
    };
    let mut n: u64 = 1;
    assert(pow2(0) == 1) by {
        lemma2_to64();
    }
    assert(initial * pow2(0) == initial);
    while n < retry_count && delay < max
        invariant
            1 <= n <= retry_count,
            initial > 0,
            delay == backoff_spec(i_n, m_n, n as nat),
            i_n == policy.initial_delay_secs,
            m_n == policy.max_delay_secs,
            max == policy.max_delay_secs,
        decreases retry_count - n,
    {
        proof {
            lemma_backoff_doubles(i_n, m_n, n as nat);
        }
        if delay > max / 2 {
            delay = max;
        } else {
            delay = delay * 2;
        }
        n = n + 1;
    }
    if n < retry_count {
        proof {
            lemma_backoff_capped(i_n, m_n, n as nat, retry_count as nat);
        }
        max
    } else {
        delay
    }
}

/// How many poll cycles in a row have failed.
#[derive(Debug, Clone, Copy, PartialEq, Eq, Structural)]
pub struct RetryState {
    pub retry_count: u64,
}

/// The failure count after one more failure; it stays at its largest value
/// rather than wrap.
pub open spec fn bumped(count: u64) -> u64 {
    if count < u64::MAX {
        (count + 1) as u64
    } else {
        count
    }
}

impl RetryState {
    /// A state with no failure behind it.
    pub fn new() -> (r: RetryState)
        ensures
            r.retry_count == 0,
    {
        RetryState { retry_count: 0 }
    }

    /// A cycle succeeded: the count goes back to zero.
    pub fn record_success(&mut self)
        ensures
            final(self).retry_count == 0,
    {
        self.retry_count = 0;
    }

    /// A cycle failed: the count goes up by one, and the pause before the next
    /// cycle is returned.
    pub fn record_failure(&mut self, policy: &RetryPolicy) -> (delay: u64)
        ensures
            final(self).retry_count == bumped(old(self).retry_count),
            delay == backoff_spec(
                policy.initial_delay_secs as nat,
                policy.max_delay_secs as nat,
                final(self).retry_count as nat,
            ),
    {
        if self.retry_count < u64::MAX {
            self.retry_count = self.retry_count + 1;
        }
        backoff_delay(policy, self.retry_count)
    }
}

/// With the standard policy (first pause 10 s, ceiling 300 s) the pauses after
/// 1, 2, 3, 4, 5 failures in a row are 10, 20, 40, 80 and 160 seconds, and from
/// the sixth failure on they stay at 300 seconds.
pub proof fn lemma_standard_backoff_sequence(retry_count: nat)
    requires
        retry_count >= 6,
    ensures
        backoff_spec(INITIAL_DELAY_SECS as nat, MAX_DELAY_SECS as nat, 1) == 10,
        backoff_spec(INITIAL_DELAY_SECS as nat, MAX_DELAY_SECS as nat, 2) == 20,
        backoff_spec(INITIAL_DELAY_SECS as nat, MAX_DELAY_SECS as nat, 3) == 40,
        backoff_spec(INITIAL_DELAY_SECS as nat, MAX_DELAY_SECS as nat, 4) == 80,
        backoff_spec(INITIAL_DELAY_SECS as nat, MAX_DELAY_SECS as nat, 5) == 160,
        backoff_spec(INITIAL_DELAY_SECS as nat, MAX_DELAY_SECS as nat, retry_count) == 300,
{
    lemma2_to64();
    assert(backoff_spec(10, 300, 6) == 300);
    lemma_backoff_capped(10, 300, 6, retry_count);
}

} // verus!
