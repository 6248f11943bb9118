use crate::strategy::{bounded_by, non_decreasing, saturate_u64, Strategy};
use crate::time::{at_most, capped, nanos, NANOS_PER_MILLI};
use std::time::Duration;
use vstd::prelude::*;

verus! {

/// A strategy driven by the Fibonacci series: each delay is the sum of the two
/// before it.
#[derive(Debug, Clone)]
pub struct FibonacciBackoff {
    current: u64,
    next: u64,
    factor: u64,
    max_delay: Option<Duration>,
}

/// The Fibonacci numbers: 0, 1, 1, 2, 3, 5, 8, ...
pub open spec fn fib(n: nat) -> nat
    decreases n,
{
    if n == 0 {
        0
    } else if n == 1 {
        1
    } else {
        fib((n - 2) as nat) + fib((n - 1) as nat)
    }
}

/// The model of a [`FibonacciBackoff`]: the two running terms of the series, in
/// milliseconds before the factor is applied, the factor, and the ceiling in
/// nanoseconds.
pub struct FibonacciState {
    pub current: nat,
    pub next: nat,
    pub factor: nat,
    pub max_delay: Option<nat>,
}

impl FibonacciState {
    /// The running terms are in order and, like the factor, fit in a `u64`.
    pub open spec fn wf(self) -> bool {
        self.current <= self.next <= u64::MAX && self.factor <= u64::MAX
    }

    /// The state one pull later. The series moves on whatever the factor and
    /// the ceiling are.
    pub open spec fn step(self) -> FibonacciState {
        FibonacciState {
            current: self.next,
            next: saturate_u64(self.current + self.next),
            ..self
        }
    }

    /// The state `k` pulls later.
    pub open spec fn advance(self, k: nat) -> FibonacciState
        decreases k,
    {
        if k == 0 {
            self
        } else {
            self.step().advance((k - 1) as nat)
        }
    }

    /// The delay before any ceiling that this state gives, in nanoseconds: the
    /// current term times the factor, held at `u64::MAX` milliseconds.
    pub open spec fn raw_delay(self) -> nat {
        saturate_u64(self.current * self.factor) * NANOS_PER_MILLI as nat
    }

    /// The delay that this state gives.
    pub open spec fn emitted(self) -> nat {
        capped(self.raw_delay(), self.max_delay)
    }

    /// The delay given `k` pulls from now.
    pub open spec fn delay(self, k: nat) -> nat {
        self.advance(k).emitted()
    }
}

impl View for FibonacciBackoff {
    type V = FibonacciState;

    closed spec fn view(&self) -> FibonacciState {
        FibonacciState {
            current: self.current as nat,
            next: self.next as nat,
            factor: self.factor as nat,
            max_delay: match self.max_delay {
                Some(max) => Some(nanos(max)),
                None => None,
            },
        }
    }
}

impl FibonacciBackoff {
    /// A Fibonacci backoff whose first two delays are `millis` milliseconds.
    pub fn from_millis(millis: u64) -> (s: Self)
        ensures
            s@ == (FibonacciState {
                current: millis as nat,
                next: millis as nat,
                factor: 1,
                max_delay: None,
            }),
            s@.wf(),
    {
        FibonacciBackoff { current: millis, next: millis, factor: 1u64, max_delay: None }
    }

    /// Sets a factor by which every delay given is multiplied. With a factor
    /// of `1000` the series counts seconds. The default is `1`.
    pub fn factor(self, factor: u64) -> (s: Self)
        ensures
            s@ == (FibonacciState { factor: factor as nat, ..self@ }),
            self@.wf() ==> s@.wf(),
    {
        let mut s = self;
        s.factor = factor;
        s
    }

    /// Sets a ceiling: no delay given will be longer than `duration`.
    pub fn max_delay(self, duration: Duration) -> (s: Self)
        ensures
            s@ == (FibonacciState { max_delay: Some(nanos(duration)), ..self@ }),
            self@.wf() ==> s@.wf(),
    {
        let mut s = self;
        s.max_delay = Some(duration);
        s
    }

    /// Sets a ceiling in milliseconds.
    pub fn max_delay_millis(self, duration: u64) -> (s: Self)
        ensures
            s@ == (FibonacciState {
                max_delay: Some(duration as nat * NANOS_PER_MILLI as nat),
                ..self@
            }),
            self@.wf() ==> s@.wf(),
    {
        let mut s = self;
        s.max_delay = Some(Duration::from_millis(duration));
        s
    }
}

impl Strategy for FibonacciBackoff {
    open spec fn upcoming(&self, i: nat) -> Option<nat> {
        Some(self@.delay(i))
    }

    /// Gives the delay of the current state and moves the series on by one
    /// term, whether or not the ceiling was applied.
    fn next(&mut self) -> (delay: Option<Duration>)
        ensures
            delay matches Some(d) && nanos(d) == old(self)@.emitted(),
            final(self)@ == old(self)@.step(),
            old(self)@.wf() ==> final(self)@.wf(),
    {
        let scaled: u64 = match self.current.checked_mul(self.factor) {
            Some(product) => product,
            None => u64::MAX,
        };
        let duration = Duration::from_millis(scaled);
        let following: u64 = self.current.saturating_add(self.next);
        self.current = self.next;
        self.next = following;
        match self.max_delay {
            Some(max) => if at_most(duration, max) {
                Some(duration)
            } else {
                Some(max)
            },
            None => Some(duration),
        }
    }
}

/// Moving on by `i` pulls and then by `j` is moving on by `i + j`.
pub proof fn lemma_fibonacci_advance_adds(s: FibonacciState, i: nat, j: nat)
    ensures
        s.advance(i).advance(j) == s.advance(i + j),
    decreases i,
{
    if i > 0 {
        lemma_fibonacci_advance_adds(s.step(), (i - 1) as nat, j);
    }
}

/// Moving on keeps the factor and the ceiling, and keeps a well-formed state
/// well-formed.
pub proof fn lemma_fibonacci_advance_keeps(s: FibonacciState, k: nat)
    ensures
        s.wf() ==> s.advance(k).wf(),
        s.advance(k).factor == s.factor,
        s.advance(k).max_delay == s.max_delay,
    decreases k,
{
    if k > 0 {
        lemma_fibonacci_advance_keeps(s.step(), (k - 1) as nat);
    }
}

/// The series does not depend on the factor or the ceiling: they leave the
/// running terms as they would be without them.
pub proof fn lemma_fibonacci_series_ignores_factor(s: FibonacciState, t: FibonacciState, k: nat)
    requires
        s.current == t.current,
        s.next == t.next,
    ensures
        s.advance(k).current == t.advance(k).current,
        s.advance(k).next == t.advance(k).next,
    decreases k,
{
    if k > 0 {
        lemma_fibonacci_series_ignores_factor(s.step(), t.step(), (k - 1) as nat);
    }
}

/// Where both running terms are multiples of `base` by neighbouring Fibonacci
/// numbers, held at `u64::MAX`, they are so again `k` pulls later.
proof fn lemma_fibonacci_multiples(s: FibonacciState, base: nat, m: nat, k: nat)
    requires
        s.current == saturate_u64(base * fib(m)),
        s.next == saturate_u64(base * fib(m + 1)),
    ensures
        s.advance(k).current == saturate_u64(base * fib(m + k)),
        s.advance(k).next == saturate_u64(base * fib(m + k + 1)),
    decreases k,
{
    if k > 0 {
        let a = fib(m);
        let b = fib(m + 1);
        assert(fib(m + 2) == a + b);
        assert(base * (a + b) == base * a + base * b) by (nonlinear_arith);
        assert(base * a >= 0 && base * b >= 0) by (nonlinear_arith);
        lemma_fibonacci_multiples(s.step(), base, m + 1, (k - 1) as nat);
    }
}

/// A Fibonacci backoff seeded at `base` runs through `base`, `base`,
/// `2 * base`, `3 * base`, `5 * base`, `8 * base`, ...: `k` pulls after the
/// start its current term is `base` times the Fibonacci number `k + 1`, held at
/// `u64::MAX`. The factor scales what is given and leaves the series alone: the
/// delay given is that term times the factor, held at `u64::MAX` milliseconds
/// and then at the ceiling.
pub proof fn lemma_fibonacci_terms(s: FibonacciBackoff, k: nat)
    requires
        s@.current == s@.next,
        s@.next <= u64::MAX,
    ensures
        s@.advance(k).current == saturate_u64(s@.current * fib(k + 1)),
        s.upcoming(k) == Some(
            capped(
                saturate_u64(saturate_u64(s@.current * fib(k + 1)) * s@.factor)
                    * NANOS_PER_MILLI as nat,
                s@.max_delay,
            ),
        ),
{
    assert(fib(2) == 1) by {
        assert(fib(2) == fib(0) + fib(1));
    }
    assert(s@.current * 1 == s@.current) by (nonlinear_arith);
    lemma_fibonacci_multiples(s@, s@.current, 1, k);
    lemma_fibonacci_advance_keeps(s@, k);
}

/// The delays of a Fibonacci backoff never decrease, and none is above the
/// ceiling.
pub proof fn lemma_fibonacci_non_decreasing(s: FibonacciState, i: nat, j: nat)
    requires
        s.wf(),
        i <= j,
    ensures
        s.advance(i).current <= s.advance(j).current,
        s.advance(i).raw_delay() <= s.advance(j).raw_delay(),
        s.delay(i) <= s.delay(j),
        s.max_delay matches Some(c) ==> s.delay(j) <= c,
    decreases j - i,
{
    lemma_fibonacci_advance_keeps(s, i);
    lemma_fibonacci_advance_keeps(s, j);
    if i < j {
        let before = s.advance((j - 1) as nat);
        lemma_fibonacci_non_decreasing(s, i, (j - 1) as nat);
        lemma_fibonacci_advance_keeps(s, (j - 1) as nat);
        lemma_fibonacci_advance_adds(s, (j - 1) as nat, 1);
        assert(before.advance(1) == before.step()) by {
            assert(before.step().advance(0) == before.step());
        }
        let a = before.current;
        let b = s.advance(j).current;
        let f = s.factor;
        assert(a * f <= b * f) by (nonlinear_arith)
            requires
                a <= b,
        ;
    }
}

/// The delays of a Fibonacci backoff never decrease, wherever it
/// stands, and none is above its ceiling.
pub proof fn lemma_fibonacci_is_non_decreasing(s: FibonacciBackoff)
    requires
        s@.wf(),
    ensures
        non_decreasing(s),
        s@.max_delay matches Some(c) ==> bounded_by(s, c),
{
    assert forall|i: nat, j: nat| i <= j && (#[trigger] s.upcoming(j)) is Some implies (
    #[trigger] s.upcoming(i)) is Some && s.upcoming(i)->0 <= s.upcoming(j)->0 by {
        lemma_fibonacci_non_decreasing(s@, i, j);
    }
    assert forall|i: nat| s@.max_delay is Some implies (#[trigger] s.upcoming(i))->0
        <= s@.max_delay->0 by {
        lemma_fibonacci_non_decreasing(s@, i, i);
    }
}

} // verus!
