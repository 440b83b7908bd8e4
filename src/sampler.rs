//! The rate limiter for error-severity log records: at most one record passes
//! per interval, and the first one after a quiet interval always passes.

use vstd::prelude::*;

verus! {

/// The interval that error logs are sampled over unless told otherwise: one
/// second, in nanoseconds.
pub const DEFAULT_SAMPLE_INTERVAL_NANOS: u64 = 1_000_000_000;

/// Sampling state shared by all requests of a process. Times are nanoseconds
/// on one monotonic clock.
#[derive(Clone, Copy, Debug, PartialEq, Eq, Structural)]
pub struct Sampler {
    /// Length of the interval in which at most one record passes.
    pub interval: u64,
    /// When the last record passed, if one has.
    pub last_pass: Option<u64>,
}

/// `a - b`, or zero where `b` is later.
pub open spec fn elapsed_since(a: u64, b: u64) -> int {
    if a >= b {
        a - b
    } else {
        0
    }
}

impl Sampler {
    /// Whether a record arriving at `now` passes: none has passed yet, or a
    /// whole interval has gone by since the last one did.
    pub open spec fn passes(self, now: u64) -> bool {
        match self.last_pass {
            None => true,
            Some(t) => elapsed_since(now, t) >= self.interval,
        }
    }

    /// The state after a record arrives at `now`.
    pub open spec fn after(self, now: u64) -> Sampler {
        if self.passes(now) {
            Sampler { interval: self.interval, last_pass: Some(now) }
        } else {
            self
        }
    }

    pub fn new(interval: u64) -> (r: Sampler)
        ensures
            r.interval == interval,
            r.last_pass.is_none(),
    {
        Sampler { interval, last_pass: None }
    }

    /// A sampler over the default interval of one second.
    pub fn per_second() -> (r: Sampler)
        ensures
            r.interval == DEFAULT_SAMPLE_INTERVAL_NANOS,
            r.last_pass.is_none(),
    {
        Sampler::new(DEFAULT_SAMPLE_INTERVAL_NANOS)
    }

    /// Decides whether a record arriving at `now` passes, and remembers the
    /// time when it does.
    pub fn try_pass(&mut self, now: u64) -> (r: bool)
        ensures
            r == old(self).passes(now),
            *final(self) == old(self).after(now),
    {
        let pass = match self.last_pass {
            None => true,
            Some(t) => now.saturating_sub(t) >= self.interval,
        };
        if pass {
            self.last_pass = Some(now);
        }
        pass
    }
}

/// After a record passes at `t`, every record arriving in the interval that
/// begins at `t` is suppressed and leaves the state as it was.
pub proof fn lemma_suppressed_within_interval(s: Sampler, t: u64, now: u64)
    requires
        s.passes(t),
        t <= now,
        now - t < s.interval,
    ensures
        !s.after(t).passes(now),
        s.after(t).after(now) == s.after(t),
{
}

/// Once a whole interval has gone by since the last record passed, the next
/// one passes.
pub proof fn lemma_passes_after_quiet_interval(s: Sampler, now: u64)
    requires
        s.last_pass.is_some() ==> now >= s.last_pass.unwrap()
            && now - s.last_pass.unwrap() >= s.interval,
    ensures
        s.passes(now),
        s.after(now).last_pass == Some(now),
{
}

} // verus!
