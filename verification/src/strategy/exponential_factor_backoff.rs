use crate::strategy::{bounded_by, non_decreasing, saturate_u64, Strategy};
use crate::time::{at_most, capped, nanos, NANOS_PER_MILLI};
use std::time::Duration;
use vstd::arithmetic::power::pow;
use vstd::prelude::*;

verus! {

/// A strategy driven by exponential back-off from a starting delay: each delay
/// is the one before it times the factor.
#[derive(Debug, Clone)]
pub struct ExponentialFactorBackoff {
    current: u64,
    factor: u64,
    max_delay: Option<Duration>,
}

/// The model of an [`ExponentialFactorBackoff`]: the running delay in
/// milliseconds, the factor, and the ceiling in nanoseconds.
pub struct ExponentialFactorState {
    pub current: nat,
    pub factor: nat,
    pub max_delay: Option<nat>,
}

impl ExponentialFactorState {
    /// The numbers fit in a `u64`.
    pub open spec fn wf(self) -> bool {
        self.current <= u64::MAX && self.factor <= u64::MAX
    }

    /// The delays do not shrink: the factor is at least one, or the running
    /// delay is zero and stays so.
    pub open spec fn grows(self) -> bool {
        self.factor >= 1 || self.current == 0
    }

    /// The state one pull later: the running delay times the factor, held at
    /// `u64::MAX`.
    pub open spec fn step(self) -> ExponentialFactorState {
        ExponentialFactorState { current: saturate_u64(self.current * self.factor), ..self }
    }

    /// The state `k` pulls later.
    pub open spec fn advance(self, k: nat) -> ExponentialFactorState
        decreases k,
    {
        if k == 0 {
            self
        } else {
            self.step().advance((k - 1) as nat)
        }
    }

    /// The delay before any ceiling that this state gives, in nanoseconds.
    pub open spec fn raw_delay(self) -> nat {
        self.current * NANOS_PER_MILLI as nat
    }

    /// The delay that this state gives.
    pub open spec fn emitted(self) -> nat {
        capped(self.raw_delay(), self.max_delay)
    }

    /// The delay given `k` pulls from now.
    pub open spec fn delay(self, k: nat) -> nat {
        self.advance(k).emitted()
    }
}

impl View for ExponentialFactorBackoff {
    type V = ExponentialFactorState;

    closed spec fn view(&self) -> ExponentialFactorState {
        ExponentialFactorState {
            current: self.current as nat,
            factor: self.factor as nat,
            max_delay: match self.max_delay {
                Some(max) => Some(nanos(max)),
                None => None,
            },
        }
    }
}

impl ExponentialFactorBackoff {
    /// An exponential backoff that starts at `base` milliseconds and
    /// multiplies the delay by `factor` with each pull.
    pub fn from_millis(base: u64, factor: u64) -> (s: Self)
        ensures
            s@ == (ExponentialFactorState {
                current: base as nat,
                factor: factor as nat,
                max_delay: None,
            }),
            s@.wf(),
    {
        ExponentialFactorBackoff { current: base, factor, max_delay: None }
    }

    /// Sets a ceiling: no delay given will be longer than `duration`.
    pub fn max_delay(self, duration: Duration) -> (s: Self)
        ensures
            s@ == (ExponentialFactorState { max_delay: Some(nanos(duration)), ..self@ }),
            self@.wf() ==> s@.wf(),
    {
        let mut s = self;
        s.max_delay = Some(duration);
        s
    }

    /// Sets a ceiling in milliseconds.
    pub fn max_delay_millis(self, duration: u64) -> (s: Self)
        ensures
            s@ == (ExponentialFactorState {
                max_delay: Some(duration as nat * NANOS_PER_MILLI as nat),
                ..self@
            }),
            self@.wf() ==> s@.wf(),
    {
        let mut s = self;
        s.max_delay = Some(Duration::from_millis(duration));
        s
    }
}

impl Strategy for ExponentialFactorBackoff {
    open spec fn upcoming(&self, i: nat) -> Option<nat> {
        Some(self@.delay(i))
    }

    /// Gives the delay of the current state and multiplies the running delay
    /// by the factor, whether or not the ceiling was applied.
    fn next(&mut self) -> (delay: Option<Duration>)
        ensures
            delay matches Some(d) && nanos(d) == old(self)@.emitted(),
            final(self)@ == old(self)@.step(),
            old(self)@.wf() ==> final(self)@.wf(),
    {
        let duration = Duration::from_millis(self.current);
        self.current = match self.current.checked_mul(self.factor) {
            Some(product) => product,
            None => u64::MAX,
        };
        match self.max_delay {
            Some(max) => if at_most(duration, max) {
                Some(duration)
            } else {
                Some(max)
            },
            None => Some(duration),
        }
    }
}

/// Moving on by `i` pulls and then by `j` is moving on by `i + j`.
pub proof fn lemma_exponential_factor_advance_adds(s: ExponentialFactorState, i: nat, j: nat)
    ensures
        s.advance(i).advance(j) == s.advance(i + j),
    decreases i,
{
    if i > 0 {
        lemma_exponential_factor_advance_adds(s.step(), (i - 1) as nat, j);
    }
}

/// Moving on keeps the factor and the ceiling, keeps a well-formed state
/// well-formed, and keeps a growing one growing.
pub proof fn lemma_exponential_factor_advance_keeps(s: ExponentialFactorState, k: nat)
    ensures
        s.wf() ==> s.advance(k).wf(),
        s.grows() ==> s.advance(k).grows(),
        s.advance(k).factor == s.factor,
        s.advance(k).max_delay == s.max_delay,
    decreases k,
{
    if k > 0 {
        assert(0 * s.factor == 0) by (nonlinear_arith);
        lemma_exponential_factor_advance_keeps(s.step(), (k - 1) as nat);
    }
}

/// Where the running delay is `base` times the power `m` of the factor, held
/// at `u64::MAX`, it is `base` times the power `m + k` after `k` pulls.
proof fn lemma_exponential_factor_powers_from(
    s: ExponentialFactorState,
    base: nat,
    m: nat,
    k: nat,
)
    requires
        s.current == saturate_u64((base * pow(s.factor as int, m)) as nat),
    ensures
        s.advance(k).current == saturate_u64((base * pow(s.factor as int, m + k)) as nat),
    decreases k,
{
    if k > 0 {
        let f = s.factor as int;
        let p = pow(f, m);
        let c = s.current as int;
        let x = base * p;
        vstd::arithmetic::power::lemma_pow_positive(f + 1, m);
        assert(pow(f, m + 1) == p * f) by {
            vstd::arithmetic::power::lemma_pow_adds(f, m, 1);
            vstd::arithmetic::power::lemma_pow1(f);
        }
        if f > 0 {
            vstd::arithmetic::power::lemma_pow_positive(f, m);
        } else {
            if m > 0 {
                vstd::arithmetic::power::lemma0_pow(m);
            } else {
                vstd::arithmetic::power::lemma_pow0(f);
            }
        }
        assert(p >= 0);
        assert(x >= 0) by (nonlinear_arith)
            requires
                x == base * p,
                p >= 0,
        ;
        assert(base * (p * f) == x * f) by (nonlinear_arith)
            requires
                x == base * p,
        ;
        assert(x * f >= 0) by (nonlinear_arith)
            requires
                x >= 0,
                f >= 0,
        ;
        if x > u64::MAX {
            if f >= 1 {
                assert(x * f > u64::MAX && c * f >= u64::MAX) by (nonlinear_arith)
                    requires
                        c == u64::MAX,
                        x > u64::MAX,
                        f >= 1,
                ;
            } else {
                assert(x * f == 0 && c * f == 0) by (nonlinear_arith)
                    requires
                        f == 0,
                ;
            }
        }
        lemma_exponential_factor_advance_keeps(s, 1);
        assert(s.advance(1) == s.step()) by {
            assert(s.step().advance(0) == s.step());
        }
        lemma_exponential_factor_powers_from(s.step(), base, m + 1, (k - 1) as nat);
    }
}

/// An exponential backoff that starts at `base` with a factor `f` runs through
/// `base`, `base * f`, `base * f * f`, and so on: its delay `k` pulls from now
/// is its running delay times the power `k` of the factor, held at `u64::MAX`
/// milliseconds and then at the ceiling.
pub proof fn lemma_exponential_factor_terms(s: ExponentialFactorBackoff, k: nat)
    requires
        s@.wf(),
    ensures
        s@.advance(k).current == saturate_u64((s@.current * pow(s@.factor as int, k)) as nat),
        s.upcoming(k) == Some(
            capped(
                saturate_u64((s@.current * pow(s@.factor as int, k)) as nat)
                    * NANOS_PER_MILLI as nat,
                s@.max_delay,
            ),
        ),
{
    vstd::arithmetic::power::lemma_pow0(s@.factor as int);
    assert(s@.current * 1 == s@.current) by (nonlinear_arith);
    lemma_exponential_factor_powers_from(s@, s@.current, 0, k);
    lemma_exponential_factor_advance_keeps(s@, k);
}

/// The delays of an exponential backoff whose factor is at least one never
/// decrease, and none is above the ceiling. (With a factor of zero the delays
/// fall from the starting delay to zero.)
pub proof fn lemma_exponential_factor_non_decreasing(s: ExponentialFactorState, i: nat, j: nat)
    requires
        s.wf(),
        s.grows(),
        i <= j,
    ensures
        s.advance(i).current <= s.advance(j).current,
        s.advance(i).raw_delay() <= s.advance(j).raw_delay(),
        s.delay(i) <= s.delay(j),
        s.max_delay matches Some(c) ==> s.delay(j) <= c,
    decreases j - i,
{
    lemma_exponential_factor_advance_keeps(s, i);
    lemma_exponential_factor_advance_keeps(s, j);
    if i < j {
        let before = s.advance((j - 1) as nat);
        lemma_exponential_factor_non_decreasing(s, i, (j - 1) as nat);
        lemma_exponential_factor_advance_keeps(s, (j - 1) as nat);
        lemma_exponential_factor_advance_adds(s, (j - 1) as nat, 1);
        assert(before.advance(1) == before.step()) by {
            assert(before.step().advance(0) == before.step());
        }
        let a = before.current;
        let f = s.factor;
        assert(a * f >= a) by (nonlinear_arith)
            requires
                f >= 1 || a == 0,
        ;
    }
}

/// The delays of an exponential backoff whose factor is at least one never decrease, wherever it
/// stands, and none is above its ceiling.
pub proof fn lemma_exponential_factor_is_non_decreasing(s: ExponentialFactorBackoff)
    requires
        s@.wf(),
        s@.grows(),
    ensures
        non_decreasing(s),
        s@.max_delay matches Some(c) ==> bounded_by(s, c),
{
    assert forall|i: nat, j: nat| i <= j && (#[trigger] s.upcoming(j)) is Some implies (
    #[trigger] s.upcoming(i)) is Some && s.upcoming(i)->0 <= s.upcoming(j)->0 by {
        lemma_exponential_factor_non_decreasing(s@, i, j);
    }
    assert forall|i: nat| s@.max_delay is Some implies (#[trigger] s.upcoming(i))->0
        <= s@.max_delay->0 by {
        lemma_exponential_factor_non_decreasing(s@, i, i);
    }
}

} // verus!
