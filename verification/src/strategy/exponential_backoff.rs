use crate::strategy::{bounded_by, non_decreasing, saturate_u64, Strategy};
use crate::time::{at_most, capped, nanos, NANOS_PER_MILLI};
use std::time::Duration;
use vstd::arithmetic::power::pow;
use vstd::prelude::*;

verus! {

/// A strategy driven by exponential back-off: the delays are the powers of the
/// base, the first power first.
#[derive(Debug, Clone)]
pub struct ExponentialBackoff {
    current: u64,
    base: u64,
    factor: u64,
    max_delay: Option<Duration>,
}

/// The model of an [`ExponentialBackoff`]: the running power and the base, in
/// milliseconds before the factor is applied, the factor, and the ceiling in
/// nanoseconds.
pub struct ExponentialState {
    pub current: nat,
    pub base: nat,
    pub factor: nat,
    pub max_delay: Option<nat>,
}

impl ExponentialState {
    /// The numbers fit in a `u64`, and with a base of zero the running power
    /// is zero.
    pub open spec fn wf(self) -> bool {
        &&& self.current <= u64::MAX
        &&& self.base <= u64::MAX
        &&& self.factor <= u64::MAX
        &&& self.base == 0 ==> self.current == 0
    }

    /// The state one pull later: the running power times the base, held at
    /// `u64::MAX`.
    pub open spec fn step(self) -> ExponentialState {
        ExponentialState { current: saturate_u64(self.current * self.base), ..self }
    }

    /// The state `k` pulls later.
    pub open spec fn advance(self, k: nat) -> ExponentialState
        decreases k,
    {
        if k == 0 {
            self
        } else {
            self.step().advance((k - 1) as nat)
        }
    }

    /// The delay before any ceiling that this state gives, in nanoseconds: the
    /// running power times the factor, held at `u64::MAX` milliseconds.
    pub open spec fn raw_delay(self) -> nat {
        saturate_u64(self.current * self.factor) * NANOS_PER_MILLI as nat
    }

    /// The delay that this state gives.
    pub open spec fn emitted(self) -> nat {
        capped(self.raw_delay(), self.max_delay)
    }

    /// The delay given `k` pulls from now.
    pub open spec fn delay(self, k: nat) -> nat {
        self.advance(k).emitted()
    }
}

impl View for ExponentialBackoff {
    type V = ExponentialState;

    closed spec fn view(&self) -> ExponentialState {
        ExponentialState {
            current: self.current as nat,
            base: self.base as nat,
            factor: self.factor as nat,
            max_delay: match self.max_delay {
                Some(max) => Some(nanos(max)),
                None => None,
            },
        }
    }
}

impl ExponentialBackoff {
    /// An exponential backoff over the powers of `base`, in milliseconds.
    pub fn from_millis(base: u64) -> (s: Self)
        ensures
            s@ == (ExponentialState {
                current: base as nat,
                base: base as nat,
                factor: 1,
                max_delay: None,
            }),
            s@.wf(),
    {
        ExponentialBackoff { current: base, base, factor: 1u64, max_delay: None }
    }

    /// Sets a factor by which every delay given is multiplied. With a factor
    /// of `1000` the powers count seconds. The default is `1`.
    pub fn factor(self, factor: u64) -> (s: Self)
        ensures
            s@ == (ExponentialState { factor: factor as nat, ..self@ }),
            self@.wf() ==> s@.wf(),
    {
        let mut s = self;
        s.factor = factor;
        s
    }

    /// Sets a ceiling: no delay given will be longer than `duration`.
    pub fn max_delay(self, duration: Duration) -> (s: Self)
        ensures
            s@ == (ExponentialState { max_delay: Some(nanos(duration)), ..self@ }),
            self@.wf() ==> s@.wf(),
    {
        let mut s = self;
        s.max_delay = Some(duration);
        s
    }

    /// Sets a ceiling in milliseconds.
    pub fn max_delay_millis(self, duration: u64) -> (s: Self)
        ensures
            s@ == (ExponentialState {
                max_delay: Some(duration as nat * NANOS_PER_MILLI as nat),
                ..self@
            }),
            self@.wf() ==> s@.wf(),
    {
        let mut s = self;
        s.max_delay = Some(Duration::from_millis(duration));
        s
    }
}

impl Strategy for ExponentialBackoff {
    open spec fn upcoming(&self, i: nat) -> Option<nat> {
        Some(self@.delay(i))
    }

    /// Gives the delay of the current state and moves on to the next power,
    /// whether or not the ceiling was applied.
    fn next(&mut self) -> (delay: Option<Duration>)
        ensures
            delay matches Some(d) && nanos(d) == old(self)@.emitted(),
            final(self)@ == old(self)@.step(),
            old(self)@.wf() ==> final(self)@.wf(),
    {
        let scaled: u64 = match self.current.checked_mul(self.factor) {
            Some(product) => product,
            None => u64::MAX,
        };
        let duration = Duration::from_millis(scaled);
        proof {
            let power = self.current as nat;
            let base = self.base as nat;
            assert(base == 0 ==> power * base == 0) by (nonlinear_arith);
        }
        self.current = match self.current.checked_mul(self.base) {
            Some(power) => power,
            None => u64::MAX,
        };
        match self.max_delay {
            Some(max) => if at_most(duration, max) {
                Some(duration)
            } else {
                Some(max)
            },
            None => Some(duration),
        }
    }
}

/// Moving on by `i` pulls and then by `j` is moving on by `i + j`.
pub proof fn lemma_exponential_advance_adds(s: ExponentialState, i: nat, j: nat)
    ensures
        s.advance(i).advance(j) == s.advance(i + j),
    decreases i,
{
    if i > 0 {
        lemma_exponential_advance_adds(s.step(), (i - 1) as nat, j);
    }
}

/// A well-formed state stays well-formed, and its base, factor and ceiling
/// stay as they are.
pub proof fn lemma_exponential_advance_keeps(s: ExponentialState, k: nat)
    ensures
        s.wf() ==> s.advance(k).wf(),
        s.advance(k).base == s.base,
        s.advance(k).factor == s.factor,
        s.advance(k).max_delay == s.max_delay,
    decreases k,
{
    if k > 0 {
        assert(0 * s.base == 0) by (nonlinear_arith);
        lemma_exponential_advance_keeps(s.step(), (k - 1) as nat);
    }
}

/// Where the running power is the power `m` of the base, held at `u64::MAX`,
/// it is the power `m + k` after `k` pulls.
proof fn lemma_exponential_powers_from(s: ExponentialState, m: nat, k: nat)
    requires
        m >= 1,
        s.current == saturate_u64(pow(s.base as int, m) as nat),
    ensures
        s.advance(k).current == saturate_u64(pow(s.base as int, m + k) as nat),
    decreases k,
{
    if k > 0 {
        let b = s.base as int;
        let p = pow(b, m);
        vstd::arithmetic::power::lemma_pow_positive(b + 1, m);
        assert(pow(b, m + 1) == p * b) by {
            vstd::arithmetic::power::lemma_pow_adds(b, m, 1);
            vstd::arithmetic::power::lemma_pow1(b);
        }
        if b == 0 {
            vstd::arithmetic::power::lemma0_pow(m);
            assert(p == 0);
            assert(s.current * s.base == 0) by (nonlinear_arith)
                requires
                    s.base == 0,
            ;
            assert(p * b == 0) by (nonlinear_arith)
                requires
                    b == 0,
            ;
        } else {
            vstd::arithmetic::power::lemma_pow_positive(b, m);
            let c = s.current as int;
            if p > u64::MAX {
                assert(p * b > u64::MAX && c * b >= u64::MAX) by (nonlinear_arith)
                    requires
                        c == u64::MAX,
                        p > u64::MAX,
                        b >= 1,
                ;
            }
            assert(p * b >= 0) by (nonlinear_arith)
                requires
                    p >= 0,
                    b >= 0,
            ;
        }
        lemma_exponential_advance_keeps(s, 1);
        assert(s.advance(1) == s.step()) by {
            assert(s.step().advance(0) == s.step());
        }
        lemma_exponential_powers_from(s.step(), m + 1, (k - 1) as nat);
    }
}

/// An exponential backoff seeded at `base` runs through `base`, `base * base`,
/// and so on: `k` pulls after the start its running power is the power `k + 1`
/// of the base, held at `u64::MAX`, and the delay given is that power times
/// the factor, held at `u64::MAX` milliseconds and then at the ceiling.
pub proof fn lemma_exponential_terms(s: ExponentialBackoff, k: nat)
    requires
        s@.current == s@.base,
        s@.base <= u64::MAX,
    ensures
        s@.advance(k).current == saturate_u64(pow(s@.base as int, k + 1) as nat),
        s.upcoming(k) == Some(
            capped(
                saturate_u64(saturate_u64(pow(s@.base as int, k + 1) as nat) * s@.factor)
                    * NANOS_PER_MILLI as nat,
                s@.max_delay,
            ),
        ),
{
    vstd::arithmetic::power::lemma_pow1(s@.base as int);
    lemma_exponential_powers_from(s@, 1, k);
    lemma_exponential_advance_keeps(s@, k);
}

/// The delays of an exponential backoff never decrease, and none is above the
/// ceiling.
pub proof fn lemma_exponential_non_decreasing(s: ExponentialState, i: nat, j: nat)
    requires
        s.wf(),
        i <= j,
    ensures
        s.advance(i).current <= s.advance(j).current,
        s.advance(i).raw_delay() <= s.advance(j).raw_delay(),
        s.delay(i) <= s.delay(j),
        s.max_delay matches Some(c) ==> s.delay(j) <= c,
    decreases j - i,
{
    lemma_exponential_advance_keeps(s, i);
    lemma_exponential_advance_keeps(s, j);
    if i < j {
        let before = s.advance((j - 1) as nat);
        lemma_exponential_non_decreasing(s, i, (j - 1) as nat);
        lemma_exponential_advance_keeps(s, (j - 1) as nat);
        lemma_exponential_advance_adds(s, (j - 1) as nat, 1);
        assert(before.advance(1) == before.step()) by {
            assert(before.step().advance(0) == before.step());
        }
        let a = before.current;
        let b = s.advance(j).current;
        let f = s.factor;
        let base = s.base;
        assert(a * base >= a) by (nonlinear_arith)
            requires
                base >= 1 || a == 0,
        ;
        assert(a * f <= b * f) by (nonlinear_arith)
            requires
                a <= b,
        ;
    }
}

/// The delays of an exponential backoff never decrease, wherever it
/// stands, and none is above its ceiling.
pub proof fn lemma_exponential_is_non_decreasing(s: ExponentialBackoff)
    requires
        s@.wf(),
    ensures
        non_decreasing(s),
        s@.max_delay matches Some(c) ==> bounded_by(s, c),
{
    assert forall|i: nat, j: nat| i <= j && (#[trigger] s.upcoming(j)) is Some implies (
    #[trigger] s.upcoming(i)) is Some && s.upcoming(i)->0 <= s.upcoming(j)->0 by {
        lemma_exponential_non_decreasing(s@, i, j);
    }
    assert forall|i: nat| s@.max_delay is Some implies (#[trigger] s.upcoming(i))->0
        <= s@.max_delay->0 by {
        lemma_exponential_non_decreasing(s@, i, i);
    }
}

} // verus!
