use crate::strategy::{bounded_by, non_decreasing, Strategy};
use crate::time::{capped, nanos, shorter};
use std::time::Duration;
use vstd::prelude::*;

verus! {

/// A strategy whose every delay is clamped to a ceiling.
///
/// The ceiling is applied to what the inner strategy gives, whatever ceiling
/// that strategy has of its own.
#[derive(Debug, Clone)]
pub struct MaxInterval<S> {
    inner: S,
    ceiling: Duration,
}

impl<S> MaxInterval<S> {
    /// The strategy that is clamped, as it stands now.
    pub closed spec fn inner(&self) -> S {
        self.inner
    }

    /// The longest delay that is given.
    pub closed spec fn ceiling(&self) -> Duration {
        self.ceiling
    }

    /// Clamps every delay of `inner` to `ceiling`.
    pub fn new(inner: S, ceiling: Duration) -> (clamped: Self)
        ensures
            clamped.inner() == inner,
            clamped.ceiling() == ceiling,
    {
        MaxInterval { inner, ceiling }
    }
}

impl<S: Strategy> Strategy for MaxInterval<S> {
    open spec fn upcoming(&self, i: nat) -> Option<nat> {
        match self.inner().upcoming(i) {
            Some(delay) => Some(capped(delay, Some(nanos(self.ceiling())))),
            None => None,
        }
    }

    /// Pulls from the inner strategy and gives the shorter of its delay and
    /// the ceiling. The ceiling never changes.
    fn next(&mut self) -> (delay: Option<Duration>)
        ensures
            final(self).ceiling() == old(self).ceiling(),
    {
        match self.inner.next() {
            Some(delay) => Some(shorter(delay, self.ceiling)),
            None => None,
        }
    }
}

/// Clamping keeps a strategy's delays in order, and puts them under the
/// ceiling.
pub proof fn lemma_max_interval_keeps_order<S: Strategy>(clamped: MaxInterval<S>)
    ensures
        non_decreasing(clamped.inner()) ==> non_decreasing(clamped),
        bounded_by(clamped, nanos(clamped.ceiling())),
{
    let inner = clamped.inner();
    if non_decreasing(inner) {
        assert forall|i: nat, j: nat| i <= j && (#[trigger] clamped.upcoming(j)) is Some implies (
        #[trigger] clamped.upcoming(i)) is Some && clamped.upcoming(i)->0 <= clamped.upcoming(
            j,
        )->0 by {
            assert(inner.upcoming(j) is Some);
            assert(inner.upcoming(i) is Some);
        }
    }
}

} // verus!
