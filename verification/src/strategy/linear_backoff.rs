use crate::strategy::{bounded_by, non_decreasing, Strategy};
use crate::time::{capped, max_nanos, nanos, saturate, shorter, NANOS_PER_MILLI, NANOS_PER_SEC};
use std::time::Duration;
use vstd::prelude::*;

verus! {

/// A strategy whose delay grows by a constant amount with each pull.
///
/// Where no increment is set, the increment is the initial delay.
#[derive(Debug, Clone)]
pub struct LinearBackoff {
    initial: Duration,
    increment: Duration,
    current_attempt: u64,
    max_delay: Option<Duration>,
}

/// The model of a [`LinearBackoff`]: its settings in nanoseconds and the number
/// of delays pulled so far.
pub struct LinearState {
    pub initial: nat,
    pub increment: nat,
    pub attempt: nat,
    pub max_delay: Option<nat>,
}

impl LinearState {
    /// How often the increment is added at pull number `k`: `k` itself, held at
    /// `u32::MAX`.
    pub open spec fn steps(k: nat) -> nat {
        if k > u32::MAX {
            u32::MAX as nat
        } else {
            k
        }
    }

    /// The delay before any ceiling at pull number `k`: the initial delay and
    /// `steps(k)` increments, held at the longest representable duration.
    pub open spec fn raw_delay(self, k: nat) -> nat {
        saturate(self.initial + self.increment * Self::steps(k))
    }

    /// The delay given at pull number `k`.
    pub open spec fn delay(self, k: nat) -> nat {
        capped(self.raw_delay(k), self.max_delay)
    }
}

impl View for LinearBackoff {
    type V = LinearState;

    closed spec fn view(&self) -> LinearState {
        LinearState {
            initial: nanos(self.initial),
            increment: nanos(self.increment),
            attempt: self.current_attempt as nat,
            max_delay: match self.max_delay {
                Some(max) => Some(nanos(max)),
                None => None,
            },
        }
    }
}

impl LinearBackoff {
    /// A linear backoff that starts at `initial` and grows by `initial`.
    pub fn new(initial: Duration) -> (s: Self)
        ensures
            s@ == (LinearState {
                initial: nanos(initial),
                increment: nanos(initial),
                attempt: 0,
                max_delay: None,
            }),
    {
        LinearBackoff { initial, increment: initial, current_attempt: 0, max_delay: None }
    }

    /// A linear backoff that starts at `millis` milliseconds.
    pub fn from_millis(millis: u64) -> (s: Self)
        ensures
            s@ == (LinearState {
                initial: millis as nat * NANOS_PER_MILLI as nat,
                increment: millis as nat * NANOS_PER_MILLI as nat,
                attempt: 0,
                max_delay: None,
            }),
    {
        Self::new(Duration::from_millis(millis))
    }

    /// A linear backoff that starts at `secs` seconds.
    pub fn from_secs(secs: u64) -> (s: Self)
        ensures
            s@ == (LinearState {
                initial: secs as nat * NANOS_PER_SEC as nat,
                increment: secs as nat * NANOS_PER_SEC as nat,
                attempt: 0,
                max_delay: None,
            }),
    {
        Self::new(Duration::from_secs(secs))
    }

    /// Sets the amount by which the delay grows with each pull.
    pub fn increment(self, increment: Duration) -> (s: Self)
        ensures
            s@ == (LinearState { increment: nanos(increment), ..self@ }),
    {
        let mut s = self;
        s.increment = increment;
        s
    }

    /// Sets the increment in milliseconds.
    pub fn increment_millis(self, millis: u64) -> (s: Self)
        ensures
            s@ == (LinearState { increment: millis as nat * NANOS_PER_MILLI as nat, ..self@ }),
    {
        let mut s = self;
        s.increment = Duration::from_millis(millis);
        s
    }

    /// Sets the increment in seconds.
    pub fn increment_secs(self, secs: u64) -> (s: Self)
        ensures
            s@ == (LinearState { increment: secs as nat * NANOS_PER_SEC as nat, ..self@ }),
    {
        let mut s = self;
        s.increment = Duration::from_secs(secs);
        s
    }

    /// Sets a ceiling: no delay given will be longer than `max`.
    pub fn max_delay(self, max: Duration) -> (s: Self)
        ensures
            s@ == (LinearState { max_delay: Some(nanos(max)), ..self@ }),
    {
        let mut s = self;
        s.max_delay = Some(max);
        s
    }

    /// Sets a ceiling in milliseconds.
    pub fn max_delay_millis(self, millis: u64) -> (s: Self)
        ensures
            s@ == (LinearState { max_delay: Some(millis as nat * NANOS_PER_MILLI as nat), ..self@ }),
    {
        let mut s = self;
        s.max_delay = Some(Duration::from_millis(millis));
        s
    }
}

impl Strategy for LinearBackoff {
    open spec fn upcoming(&self, i: nat) -> Option<nat> {
        Some(self@.delay(self@.attempt + i))
    }

    /// Gives the delay of the current pull and counts the pull. The count
    /// stays at `u64::MAX` once it is there; the settings never change.
    fn next(&mut self) -> (delay: Option<Duration>)
        ensures
            delay matches Some(d) && nanos(d) == old(self)@.delay(old(self)@.attempt),
            final(self)@ == (LinearState {
                attempt: if old(self)@.attempt < u64::MAX {
                    old(self)@.attempt + 1
                } else {
                    old(self)@.attempt
                },
                ..old(self)@
            }),
    {
        let steps: u32 = if self.current_attempt > u32::MAX as u64 {
            u32::MAX
        } else {
            self.current_attempt as u32
        };
        let raw = self.initial.saturating_add(self.increment.saturating_mul(steps));
        let delay = match self.max_delay {
            Some(max) => shorter(raw, max),
            None => raw,
        };
        self.current_attempt = self.current_attempt.saturating_add(1);
        Some(delay)
    }
}

/// A linear backoff that has not been pulled gives `initial`,
/// `initial + increment`, `initial + 2 * increment`, and so on: its delay `k`
/// pulls from now is the initial delay and `k` increments, for every `k` up to
/// `u32::MAX`, held at the longest representable duration and then at the
/// ceiling.
pub proof fn lemma_linear_terms(s: LinearBackoff, k: nat)
    requires
        s@.attempt == 0,
        k <= u32::MAX,
    ensures
        s.upcoming(k) == Some(capped(saturate(s@.initial + k * s@.increment), s@.max_delay)),
        s@.max_delay is None && s@.initial + k * s@.increment <= max_nanos() ==> s.upcoming(k)
            == Some(s@.initial + k * s@.increment),
{
    assert(s@.increment * k == k * s@.increment) by (nonlinear_arith);
}

/// The delays of a linear backoff never decrease, and none is above the
/// ceiling.
pub proof fn lemma_linear_non_decreasing(s: LinearState, i: nat, j: nat)
    requires
        i <= j,
    ensures
        s.raw_delay(i) <= s.raw_delay(j),
        s.delay(i) <= s.delay(j),
        s.max_delay matches Some(c) ==> s.delay(j) <= c,
{
    let a = LinearState::steps(i);
    let b = LinearState::steps(j);
    assert(s.increment * a <= s.increment * b) by (nonlinear_arith)
        requires
            a <= b,
    ;
}

/// The delays of a linear backoff never decrease, wherever it stands, and none
/// is above its ceiling.
pub proof fn lemma_linear_is_non_decreasing(s: LinearBackoff)
    ensures
        non_decreasing(s),
        s@.max_delay matches Some(c) ==> bounded_by(s, c),
{
    assert forall|i: nat, j: nat| i <= j && (#[trigger] s.upcoming(j)) is Some implies (
    #[trigger] s.upcoming(i)) is Some && s.upcoming(i)->0 <= s.upcoming(j)->0 by {
        lemma_linear_non_decreasing(s@, s@.attempt + i, s@.attempt + j);
    }
}

} // verus!
