//! Exponential backoff: for each failed attempt, wait twice as long as
//! before, and give up after a fixed number of attempts.
use vstd::prelude::*;

verus! {

/// What to do after a failed attempt.
#[derive(Debug, Clone, PartialEq, Eq)]
pub enum RetryPolicy<E> {
    /// Wait this many seconds, then try again.
    WaitRetry(u64),
    /// Give up, handing the attempt's error on.
    ForwardError(E),
}

/// The backoff settings of one retry session.
#[derive(Debug, Clone, Copy, PartialEq, Eq)]
pub struct ExponentialRetryManager {
    pub init_wait_time: u64,
    pub max_num_attempts: usize,
}

pub open spec fn power_of_two(n: nat) -> nat
    decreases n,
{
    if n == 0 {
        1
    } else {
        2 * power_of_two((n - 1) as nat)
    }
}

/// Seconds to wait after the failed attempt with this 0-based index.
pub open spec fn wait_after(init_wait_time: u64, attempt: nat) -> int {
    init_wait_time * power_of_two(attempt)
}

pub proof fn lemma_power_of_two_monotone(a: nat, b: nat)
    requires
        a <= b,
    ensures
        1 <= power_of_two(a) <= power_of_two(b),
    decreases b,
{
    if a < b {
        lemma_power_of_two_monotone(a, (b - 1) as nat);
    } else if a > 0 {
        lemma_power_of_two_monotone((a - 1) as nat, (a - 1) as nat);
    }
}

impl ExponentialRetryManager {
    /// A retry session; the initial wait defaults to one second and the
    /// number of attempts to three.
    pub fn new(init_wait_time: Option<u64>, max_num_attempts: Option<usize>) -> (r: Self)
        ensures
            r.init_wait_time == match init_wait_time {
                Some(w) => w,
                None => 1,
            },
            r.max_num_attempts == match max_num_attempts {
                Some(n) => n,
                None => 3,
            },
    {
        ExponentialRetryManager {
            init_wait_time: match init_wait_time {
                Some(w) => w,
                None => 1,
            },
            max_num_attempts: match max_num_attempts {
                Some(n) => n,
                None => 3,
            },
        }
    }

    /// The decision after the failed attempt `attempt` (0-based): wait
    /// `init_wait_time * 2^attempt` seconds while `attempt` is below the
    /// maximum, else give up with the attempt's own error.
    pub fn handle<E>(&mut self, attempt: usize, err: E) -> (r: RetryPolicy<E>)
        requires
            attempt < old(self).max_num_attempts ==> wait_after(
                old(self).init_wait_time,
                attempt as nat,
            ) <= u64::MAX,
        ensures
            *final(self) == *old(self),
            attempt >= old(self).max_num_attempts ==> r == RetryPolicy::ForwardError(err),
            attempt < old(self).max_num_attempts ==> r == RetryPolicy::<E>::WaitRetry(
                wait_after(old(self).init_wait_time, attempt as nat) as u64,
            ),
    {
        if attempt >= self.max_num_attempts {
            return RetryPolicy::ForwardError(err);
        }
        let init = self.init_wait_time;
        let mut wait = init;
        let mut k: usize = 0;
        assert(power_of_two(0) == 1);
        assert(wait_after(init, 0) == init);
        while k < attempt
            invariant
                k <= attempt,
                wait == wait_after(init, k as nat),
                wait_after(init, attempt as nat) <= u64::MAX,
            decreases attempt - k,
        {
            let ghost e = power_of_two(k as nat);
            assert(power_of_two((k + 1) as nat) == 2 * e);
            proof {
                lemma_power_of_two_monotone((k + 1) as nat, attempt as nat);
                vstd::arithmetic::mul::lemma_mul_inequality(
                    power_of_two((k + 1) as nat) as int,
                    power_of_two(attempt as nat) as int,
                    init as int,
                );
            }
            assert(init * (2 * e) == 2 * (init * e)) by (nonlinear_arith);
            assert(power_of_two((k + 1) as nat) * init == init * power_of_two((k + 1) as nat)) by (nonlinear_arith);
            wait = wait * 2;
            k = k + 1;
        }
        RetryPolicy::WaitRetry(wait)
    }
}

} // verus!
