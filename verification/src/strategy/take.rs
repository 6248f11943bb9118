use crate::strategy::{bounded_by, non_decreasing, Strategy};
use std::time::Duration;
use vstd::prelude::*;

verus! {

/// A strategy cut off after a number of delays.
#[derive(Debug, Clone)]
pub struct Take<S> {
    inner: S,
    remaining: usize,
}

impl<S> Take<S> {
    /// The strategy that is cut off, as it stands now.
    pub closed spec fn inner(&self) -> S {
        self.inner
    }

    /// How many delays may still be pulled.
    pub closed spec fn remaining(&self) -> nat {
        self.remaining as nat
    }

    /// Cuts `inner` off after `n` delays.
    pub fn new(inner: S, n: usize) -> (bounded: Self)
        ensures
            bounded.inner() == inner,
            bounded.remaining() == n,
    {
        Take { inner, remaining: n }
    }
}

impl<S: Strategy> Strategy for Take<S> {
    open spec fn upcoming(&self, i: nat) -> Option<nat> {
        if i < self.remaining() {
            self.inner().upcoming(i)
        } else {
            None
        }
    }

    /// Pulls from the inner strategy while delays remain, and never after.
    fn next(&mut self) -> (delay: Option<Duration>)
        ensures
            old(self).remaining() == 0 ==> *final(self) == *old(self),
            final(self).remaining() == if old(self).remaining() == 0 {
                0
            } else {
                old(self).remaining() - 1
            },
    {
        if self.remaining == 0 {
            None
        } else {
            self.remaining = self.remaining - 1;
            self.inner.next()
        }
    }
}

/// A strategy cut off after `n` delays gives exactly `n` delays and then ends,
/// where the inner strategy has that many to give: the first `n` pulls return
/// the inner strategy's delays, and every later pull returns `None`.
pub proof fn lemma_take_yields_exactly<S: Strategy>(bounded: Take<S>)
    requires
        forall|k: nat| k < bounded.remaining() ==> bounded.inner().upcoming(k) is Some,
    ensures
        forall|i: nat|
            i < bounded.remaining() ==> #[trigger] bounded.upcoming(i) is Some && bounded.upcoming(
                i,
            ) == bounded.inner().upcoming(i),
        forall|i: nat| i >= bounded.remaining() ==> #[trigger] bounded.upcoming(i) is None,
{
}

/// Cutting off keeps a strategy's delays in order and under their ceiling.
pub proof fn lemma_take_keeps_order<S: Strategy>(bounded: Take<S>, ceiling: nat)
    ensures
        non_decreasing(bounded.inner()) ==> non_decreasing(bounded),
        bounded_by(bounded.inner(), ceiling) ==> bounded_by(bounded, ceiling),
{
    let inner = bounded.inner();
    if non_decreasing(inner) {
        assert forall|i: nat, j: nat| i <= j && (#[trigger] bounded.upcoming(j)) is Some implies (
        #[trigger] bounded.upcoming(i)) is Some && bounded.upcoming(i)->0 <= bounded.upcoming(
            j,
        )->0 by {
            assert(inner.upcoming(j) is Some);
            assert(inner.upcoming(i) is Some);
        }
    }
    if bounded_by(inner, ceiling) {
        assert forall|i: nat| (#[trigger] bounded.upcoming(i)) is Some implies bounded.upcoming(
            i,
        )->0 <= ceiling by {
            assert(inner.upcoming(i) is Some);
        }
    }
}

} // verus!
