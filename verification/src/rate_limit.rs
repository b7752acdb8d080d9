//! The global request spacing: the decisions of the rate limiter, on a clock
//! read in nanoseconds.

use vstd::prelude::*;

verus! {

/// Spaces outbound requests at least `min_interval_ns` apart.
#[derive(Debug)]
pub struct RateLimiter {
    /// The least time between the starts of two requests.
    pub min_interval_ns: u64,
    /// The earliest time at which the next request may start.
    pub next_allowed_ns: u64,
}

/// How long a request arriving at `now` must wait for `next_allowed`.
pub open spec fn wait_for(next_allowed: u64, now: u64) -> nat {
    if next_allowed > now {
        (next_allowed - now) as nat
    } else {
        0
    }
}

/// The limiter after a request starts at `start`.
pub open spec fn after_start(limiter: RateLimiter, start: u64) -> RateLimiter {
    RateLimiter { next_allowed_ns: (start + limiter.min_interval_ns) as u64, ..limiter }
}

impl RateLimiter {
    /// A limiter whose first request may start at once (at `now_ns`).
    pub fn with_interval(min_interval_ns: u64, now_ns: u64) -> (r: RateLimiter)
        ensures
            r.min_interval_ns == min_interval_ns,
            r.next_allowed_ns == now_ns,
    {
        RateLimiter { min_interval_ns, next_allowed_ns: now_ns }
    }

    /// How long a request arriving at `now_ns` must sleep before it starts.
    pub fn delay_before(&self, now_ns: u64) -> (r: u64)
        ensures
            r == wait_for(self.next_allowed_ns, now_ns),
    {
        if self.next_allowed_ns > now_ns {
            self.next_allowed_ns - now_ns
        } else {
            0
        }
    }

    /// Records that a request starts at `now_ns`: the next one may start one
    /// interval later.
    pub fn record_start(&mut self, now_ns: u64)
        requires
            now_ns + old(self).min_interval_ns <= u64::MAX,
        ensures
            *final(self) == after_start(*old(self), now_ns),
    {
        self.next_allowed_ns = now_ns + self.min_interval_ns;
    }
}

/// Two requests let through one after the other start at least one interval
/// apart: after a request starts at `first`, a request that arrives at
/// `arrival` and sleeps the delay it is given cannot start before
/// `first + min_interval_ns`.
pub proof fn lemma_requests_spaced(limiter: RateLimiter, first: u64, arrival: u64, second: u64)
    requires
        first + limiter.min_interval_ns <= u64::MAX,
        second >= arrival + wait_for(after_start(limiter, first).next_allowed_ns, arrival),
    ensures
        second >= first + limiter.min_interval_ns,
{
}

/// No request waits longer than needed: a request arriving after the
/// previous one started waits at most one interval, and none once the
/// interval has passed.
pub proof fn lemma_wait_bounded(limiter: RateLimiter, first: u64, arrival: u64)
    requires
        first + limiter.min_interval_ns <= u64::MAX,
        arrival >= first,
    ensures
        wait_for(after_start(limiter, first).next_allowed_ns, arrival) <= limiter.min_interval_ns,
        arrival >= first + limiter.min_interval_ns ==> wait_for(after_start(limiter, first).next_allowed_ns, arrival) == 0,
{
}

} // verus!
