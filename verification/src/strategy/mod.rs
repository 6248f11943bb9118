//! Delay strategies: lazy sequences of delays that a retry loop pulls from.

pub mod exponential_backoff;
pub mod exponential_factor_backoff;
pub mod fibonacci_backoff;
pub mod fixed_interval;
pub mod jitter;
pub mod linear_backoff;
pub mod max_interval;
pub mod take;

pub use self::exponential_backoff::{ExponentialBackoff, ExponentialState};
pub use self::exponential_factor_backoff::{ExponentialFactorBackoff, ExponentialFactorState};
pub use self::fibonacci_backoff::{FibonacciBackoff, FibonacciState};
pub use self::fixed_interval::FixedInterval;
pub use self::jitter::{jitter_range, RangeJitter};
pub use self::linear_backoff::{LinearBackoff, LinearState};
pub use self::max_interval::MaxInterval;
pub use self::take::Take;

use crate::time::{nanos, NANOS_PER_MILLI};
use std::time::Duration;
use vstd::prelude::*;

verus! {

/// `x` held at `u64::MAX`.
pub open spec fn saturate_u64(x: nat) -> nat {
    if x > u64::MAX {
        u64::MAX as nat
    } else {
        x
    }
}

/// A lazy sequence of delays, finite or endless.
///
/// The model of a strategy is the sequence of delays that it has yet to give:
/// `upcoming(i)` is the length, in nanoseconds, of the delay that the pull `i`
/// pulls from now returns, and `None` where the strategy has ended by then.
pub trait Strategy: Sized {
    /// The delay `i` pulls from now, in nanoseconds; `None` once the strategy
    /// has ended.
    spec fn upcoming(&self, i: nat) -> Option<nat>;

    /// Pulls the next delay. Returns the head of the sequence and leaves the
    /// rest of it; nothing else changes.
    fn next(&mut self) -> (delay: Option<Duration>)
        ensures
            delay is Some <==> old(self).upcoming(0) is Some,
            delay matches Some(d) ==> old(self).upcoming(0) == Some(nanos(d)),
            forall|i: nat| #[trigger] final(self).upcoming(i) == old(self).upcoming(i + 1),
    ;

    /// Clamps every delay of the strategy to `millis` milliseconds.
    fn max_interval(self, millis: u64) -> (clamped: MaxInterval<Self>)
        ensures
            clamped.inner() == self,
            nanos(clamped.ceiling()) == millis as nat * NANOS_PER_MILLI as nat,
    {
        MaxInterval::new(self, Duration::from_millis(millis))
    }

    /// Bounds the strategy to its first `n` delays.
    fn take(self, n: usize) -> (bounded: Take<Self>)
        ensures
            bounded.inner() == self,
            bounded.remaining() == n,
    {
        Take::new(self, n)
    }
}

/// The delays of `s` never decrease: every delay is at least as long as each
/// delay given before it.
pub open spec fn non_decreasing<S: Strategy>(s: S) -> bool {
    forall|i: nat, j: nat|
        i <= j && (#[trigger] s.upcoming(j)) is Some ==> (#[trigger] s.upcoming(i)) is Some
            && s.upcoming(i)->0 <= s.upcoming(j)->0
}

/// No delay of `s` is longer than `ceiling` nanoseconds.
pub open spec fn bounded_by<S: Strategy>(s: S, ceiling: nat) -> bool {
    forall|i: nat| (#[trigger] s.upcoming(i)) matches Some(delay) ==> delay <= ceiling
}

/// A strategy whose delays never decrease and never pass a ceiling stays at
/// the ceiling once it has reached it: every delay after one that is the
/// ceiling is the ceiling again.
pub proof fn lemma_locks_at_ceiling<S: Strategy>(s: S, ceiling: nat, i: nat, j: nat)
    requires
        non_decreasing(s),
        bounded_by(s, ceiling),
        i <= j,
        s.upcoming(i) == Some(ceiling),
        s.upcoming(j) is Some,
    ensures
        s.upcoming(j) == Some(ceiling),
{
}

} // verus!
