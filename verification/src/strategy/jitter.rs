use crate::time::{max_nanos, nanos};
use std::time::Duration;
use vstd::prelude::*;

verus! {

/// A jitter that multiplies every delay by one number, chosen once.
#[derive(Debug, Clone, Copy)]
pub struct RangeJitter {
    multiplier: u32,
}

/// `rand::random_range` on the half-open range `low..high`: some number of
/// the range, which must not be empty. Which one is up to the thread's random
/// number generator.
#[verifier::external_body]
fn random_in_range(low: u32, high: u32) -> (n: u32)
    requires
        low < high,
    ensures
        low <= n < high,
{
    rand::random_range(low..high)
}

/// A jitter whose multiplier is drawn at random from `low..high`, once, and
/// then applied to every delay.
pub fn jitter_range(low: u32, high: u32) -> (jitter: RangeJitter)
    requires
        low < high,
    ensures
        low <= jitter.multiplier() < high,
{
    RangeJitter::with_multiplier(random_in_range(low, high))
}

impl RangeJitter {
    /// The number by which every delay is multiplied.
    pub closed spec fn multiplier(&self) -> nat {
        self.multiplier as nat
    }

    /// The jitter that multiplies by `multiplier`.
    pub fn with_multiplier(multiplier: u32) -> (jitter: Self)
        ensures
            jitter.multiplier() == multiplier,
    {
        RangeJitter { multiplier }
    }

    /// The number by which every delay is multiplied.
    pub fn factor(&self) -> (multiplier: u32)
        ensures
            multiplier == self.multiplier(),
    {
        self.multiplier
    }

    /// The delay times the multiplier, or `None` where that is longer than
    /// the longest representable duration.
    pub fn checked_apply(&self, duration: Duration) -> (scaled: Option<Duration>)
        ensures
            scaled is Some <==> nanos(duration) * self.multiplier() <= max_nanos(),
            scaled matches Some(d) ==> nanos(d) == nanos(duration) * self.multiplier(),
    {
        duration.checked_mul(self.multiplier)
    }

    /// The delay times the multiplier, which must be representable.
    pub fn apply(&self, duration: Duration) -> (scaled: Duration)
        requires
            nanos(duration) * self.multiplier() <= max_nanos(),
        ensures
            nanos(scaled) == nanos(duration) * self.multiplier(),
    {
        duration.checked_mul(self.multiplier).unwrap()
    }
}

} // verus!
