use crate::strategy::{bounded_by, non_decreasing, Strategy};
use crate::time::{nanos, NANOS_PER_MILLI};
use std::time::Duration;
use vstd::prelude::*;

verus! {

/// A strategy that gives the same delay forever.
#[derive(Debug, Clone)]
pub struct FixedInterval {
    duration: Duration,
}

impl FixedInterval {
    /// The delay that every pull returns.
    pub closed spec fn interval(&self) -> Duration {
        self.duration
    }

    /// A strategy that always waits `duration`.
    pub fn new(duration: Duration) -> (s: Self)
        ensures
            s.interval() == duration,
    {
        FixedInterval { duration }
    }

    /// A strategy that always waits `millis` milliseconds.
    pub fn from_millis(millis: u64) -> (s: Self)
        ensures
            nanos(s.interval()) == millis as nat * NANOS_PER_MILLI as nat,
    {
        FixedInterval { duration: Duration::from_millis(millis) }
    }
}

impl Strategy for FixedInterval {
    open spec fn upcoming(&self, i: nat) -> Option<nat> {
        Some(nanos(self.interval()))
    }

    /// Returns the interval itself and changes nothing.
    fn next(&mut self) -> (delay: Option<Duration>)
        ensures
            delay == Some(old(self).interval()),
            *final(self) == *old(self),
    {
        Some(self.duration)
    }
}

/// A fixed interval gives the same delay at every pull, so its delays never
/// decrease.
pub proof fn lemma_fixed_interval_is_constant(s: FixedInterval)
    ensures
        forall|i: nat| #[trigger] s.upcoming(i) == Some(nanos(s.interval())),
        non_decreasing(s),
        bounded_by(s, nanos(s.interval())),
{
}

} // verus!
