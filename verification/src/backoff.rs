//! The retry schedule for connecting to the store.
use vstd::prelude::*;

verus! {

/// Connection attempts that are followed by a sleep and a retry; one final attempt follows.
pub const CONNECT_RETRIES: u32 = 8;

/// The sleep after the first failed attempt.
pub const INITIAL_DELAY_MS: u64 = 200;

/// The longest sleep between two attempts.
pub const MAX_DELAY_MS: u64 = 5000;

/// The sleep after the failed attempt number `k + 1`: it starts at 200 ms and doubles,
/// up to 5 s.
pub open spec fn backoff_delay(k: nat) -> nat
    decreases k,
{
    if k == 0 {
        INITIAL_DELAY_MS as nat
    } else {
        let d = 2 * backoff_delay((k - 1) as nat);
        if d < MAX_DELAY_MS { d } else { MAX_DELAY_MS as nat }
    }
}

/// Where a run of connection attempts stands: how many attempts failed so far, and the
/// sleep that follows the next failure.
pub struct ConnectBackoff {
    pub failures: u32,
    pub delay_ms: u64,
}

impl ConnectBackoff {
    /// Whether the fields agree with the schedule.
    pub open spec fn wf(&self) -> bool {
        &&& self.failures <= CONNECT_RETRIES + 1
        &&& self.delay_ms == backoff_delay(self.failures as nat)
    }

    /// No attempt made yet.
    pub fn new() -> (b: ConnectBackoff)
        ensures
            b.wf(),
            b.failures == 0,
    {
        ConnectBackoff { failures: 0, delay_ms: INITIAL_DELAY_MS }
    }

    /// Records a failed attempt. Returns the milliseconds to sleep before the next attempt,
    /// or `None` when this was the final attempt and the error is to be returned.
    pub fn after_failure(&mut self) -> (r: Option<u64>)
        requires
            old(self).wf(),
            old(self).failures <= CONNECT_RETRIES,
        ensures
            final(self).wf(),
            final(self).failures == old(self).failures + 1,
            old(self).failures < CONNECT_RETRIES ==> r == Some(
                backoff_delay(old(self).failures as nat) as u64,
            ),
            old(self).failures == CONNECT_RETRIES ==> r is None,
    {
        let sleep = self.delay_ms;
        proof {
            lemma_backoff_delay_bounds(self.failures as nat);
        }
        self.failures = self.failures + 1;
        self.delay_ms = if sleep < MAX_DELAY_MS / 2 { sleep * 2 } else { MAX_DELAY_MS };
        if self.failures <= CONNECT_RETRIES {
            Some(sleep)
        } else {
            None
        }
    }
}

/// Every sleep lies between 200 ms and 5 s.
pub proof fn lemma_backoff_delay_bounds(k: nat)
    ensures
        INITIAL_DELAY_MS <= backoff_delay(k) <= MAX_DELAY_MS,
    decreases k,
{
    if k > 0 {
        lemma_backoff_delay_bounds((k - 1) as nat);
    }
}

/// Law: the sleeps never shrink from one failed attempt to the next, double until they reach
/// 5 s, and never exceed it.
pub proof fn law_backoff_schedule(k: nat)
    ensures
        INITIAL_DELAY_MS <= backoff_delay(k) <= MAX_DELAY_MS,
        backoff_delay(k) <= backoff_delay(k + 1),
        backoff_delay(k + 1) == if 2 * backoff_delay(k) < MAX_DELAY_MS {
            2 * backoff_delay(k)
        } else {
            MAX_DELAY_MS as nat
        },
{
    lemma_backoff_delay_bounds(k);
    lemma_backoff_delay_bounds(k + 1);
}

} // verus!
