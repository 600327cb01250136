use vstd::prelude::*;

verus! {

/// The first wait between attempts, in milliseconds.
pub const INITIAL_INTERVAL_MS: u64 = 100;

/// The longest wait between attempts, in milliseconds.
pub const MAX_INTERVAL_MS: u64 = 2000;

/// The overall deadline: once this much time has gone by, no further
/// attempt is made.
pub const MAX_ELAPSED_MS: u64 = 15000;

/// What the retry layer decides after a failed attempt: wait some
/// time drawn from the given range and try again, or give up and
/// surface the error.
pub enum RetryDecision {
    Stop,
    RetryAfter { min_ms: u64, max_ms: u64 },
}

/// The exponential-backoff state of one wrapped call: the current
/// base interval and the time spent so far.
///
/// Only the token-acquisition calls (auth-code exchange, refresh) are
/// wrapped in this policy; data calls are not retried here.
pub struct RetryPolicy {
    pub current_interval_ms: u64,
    pub elapsed_ms: u64,
}

impl RetryPolicy {
    /// A fresh policy: the base interval starts at 100 ms and no time
    /// has gone by.
    pub fn new() -> (r: Self)
        ensures
            r.current_interval_ms == INITIAL_INTERVAL_MS,
            r.elapsed_ms == 0,
    {
        RetryPolicy { current_interval_ms: INITIAL_INTERVAL_MS, elapsed_ms: 0 }
    }

    /// Decide after one failed attempt.
    ///
    /// A permanent error, or a deadline of 15 s spent, stops the
    /// retrying. A transient error within the deadline earns another
    /// attempt after a randomized wait in [interval/2, interval*3/2]
    /// (the randomization factor is one half); the base interval then
    /// doubles, capped at 2 s. `waited_ms` is the time the attempt
    /// and any wait before it took; it is added to the elapsed time,
    /// saturating.
    pub fn on_error(&mut self, permanent: bool, waited_ms: u64) -> (d: RetryDecision)
        requires
            old(self).current_interval_ms <= MAX_INTERVAL_MS,
        ensures
            final(self).current_interval_ms <= MAX_INTERVAL_MS,
            final(self).elapsed_ms == if old(self).elapsed_ms + waited_ms <= u64::MAX {
                (old(self).elapsed_ms + waited_ms) as u64
            } else {
                u64::MAX
            },
            permanent ==> d is Stop,
            !permanent && final(self).elapsed_ms >= MAX_ELAPSED_MS ==> d is Stop,
            (!permanent && final(self).elapsed_ms < MAX_ELAPSED_MS) ==> {
                &&& d matches RetryDecision::RetryAfter { min_ms, max_ms } && min_ms == old(self).current_interval_ms / 2 && max_ms == old(self).current_interval_ms + old(self).current_interval_ms / 2
                &&& final(self).current_interval_ms == if 2 * old(self).current_interval_ms
                    <= MAX_INTERVAL_MS {
                    (2 * old(self).current_interval_ms) as u64
                } else {
                    MAX_INTERVAL_MS
                }
            },
            (permanent || final(self).elapsed_ms >= MAX_ELAPSED_MS) ==> final(self).current_interval_ms == old(self).current_interval_ms,
    {
        if waited_ms <= u64::MAX - self.elapsed_ms {
            self.elapsed_ms = self.elapsed_ms + waited_ms;
        } else {
            self.elapsed_ms = u64::MAX;
        }
        if permanent || self.elapsed_ms >= MAX_ELAPSED_MS {
            RetryDecision::Stop
        } else {
            let base = self.current_interval_ms;
            let min_ms = base / 2;
            let max_ms = base + base / 2;
            if base <= MAX_INTERVAL_MS / 2 {
                self.current_interval_ms = 2 * base;
            } else {
                self.current_interval_ms = MAX_INTERVAL_MS;
            }
            RetryDecision::RetryAfter { min_ms, max_ms }
        }
    }
}

} // verus!
