//! The course of a whole retry loop, as a model, and what holds of it.
//!
//! A loop is here the list of its attempts, each with the operation's result
//! and the condition's answer. [`run`] folds the driver's decisions over the
//! list; the lemmas say how loops of certain shapes end.

use crate::error::RetryError;
use crate::retry::{decision, pulls, settled, Decision, Step};
use crate::strategy::Strategy;
use crate::time::nanos;
use vstd::prelude::*;

verus! {

/// One attempt as the driver sees it: what the operation returned, and what
/// the condition answers to its error. Without a condition the answer is
/// `true`.
pub struct Attempt<T, E> {
    pub outcome: Result<T, RetryError<E>>,
    pub accepted: bool,
}

impl<T, E> Attempt<T, E> {
    /// The attempt raised a transient error without a delay of its own, and
    /// the condition accepts it.
    pub open spec fn retryable(self) -> bool {
        self.accepted && self.outcome matches Err(RetryError::Transient { err, retry_after: None })
    }
}

/// One notification: the error of the attempt that is retried, and the delay
/// in nanoseconds that is waited before the next attempt.
pub struct Notice<E> {
    pub error: E,
    pub delay: nat,
}

/// How far a loop has come.
pub struct Trace<T, E> {
    /// The result of the loop, once it has ended.
    pub result: Option<Result<T, E>>,
    /// How many attempts were made.
    pub attempts: nat,
    /// How many times the strategy was pulled.
    pub pulled: nat,
    /// The notifications made, one for each wait, in order.
    pub notices: Seq<Notice<E>>,
}

impl<T, E> Trace<T, E> {
    /// The loop before its first attempt.
    pub open spec fn start() -> Self {
        Trace { result: None, attempts: 0, pulled: 0, notices: Seq::empty() }
    }

    /// The loop one attempt later. A loop that has ended stays as it is.
    pub open spec fn extended<S: Strategy>(self, strategy: S, attempt: Attempt<T, E>) -> Self {
        if self.result is Some {
            self
        } else {
            let pulled = if pulls(attempt.outcome, attempt.accepted) {
                self.pulled + 1
            } else {
                self.pulled
            };
            let attempts = self.attempts + 1;
            match decision(attempt.outcome, attempt.accepted, strategy.upcoming(self.pulled)) {
                Decision::Succeed(value) => Trace {
                    result: Some(Ok(value)),
                    attempts,
                    pulled,
                    notices: self.notices,
                },
                Decision::Fail(error) => Trace {
                    result: Some(Err(error)),
                    attempts,
                    pulled,
                    notices: self.notices,
                },
                Decision::Retry { error, delay } => Trace {
                    result: None,
                    attempts,
                    pulled,
                    notices: self.notices.push(Notice { error, delay }),
                },
            }
        }
    }
}

/// The loop over `strategy`, as fresh as it is given, after the first `n` of
/// `attempts`.
pub open spec fn run_to<S: Strategy, T, E>(
    strategy: S,
    attempts: Seq<Attempt<T, E>>,
    n: nat,
) -> Trace<T, E>
    decreases n,
{
    if n == 0 {
        Trace::start()
    } else {
        run_to(strategy, attempts, (n - 1) as nat).extended(strategy, attempts[n - 1])
    }
}

/// The loop over `strategy` after all of `attempts`.
pub open spec fn run<S: Strategy, T, E>(strategy: S, attempts: Seq<Attempt<T, E>>) -> Trace<T, E> {
    run_to(strategy, attempts, attempts.len())
}

/// One call of the driver is one step of the model: where the strategy in the
/// driver's hands is the fresh one after the pulls that the loop has made, and
/// the loop has not ended, a settled step is what the model has next, and the
/// strategy is again the fresh one after the pulls made.
pub proof fn lemma_settled_follows_the_model<S: Strategy, T, E>(
    fresh: S,
    trace: Trace<T, E>,
    before: S,
    after: S,
    attempt: Attempt<T, E>,
    step: Step<T, E>,
)
    requires
        trace.result is None,
        forall|i: nat| #[trigger] before.upcoming(i) == fresh.upcoming(trace.pulled + i),
        settled(before, after, attempt.outcome, attempt.accepted, step),
    ensures
        ({
            let next = trace.extended(fresh, attempt);
            &&& next.attempts == trace.attempts + 1
            &&& match step@ {
                Decision::Succeed(value) => next.result == Some(Ok::<T, E>(value)) && next.notices
                    == trace.notices,
                Decision::Fail(error) => next.result == Some(Err::<T, E>(error)) && next.notices
                    == trace.notices,
                Decision::Retry { error, delay } => next.result is None && next.notices
                    == trace.notices.push(Notice { error, delay }),
            }
            &&& forall|i: nat| #[trigger] after.upcoming(i) == fresh.upcoming(next.pulled + i)
        }),
{
    let next = trace.extended(fresh, attempt);
    assert(before.upcoming(0) == fresh.upcoming(trace.pulled + 0));
    if pulls(attempt.outcome, attempt.accepted) {
        assert forall|i: nat| #[trigger] after.upcoming(i) == fresh.upcoming(next.pulled + i) by {
            assert(after.upcoming(i) == before.upcoming(i + 1));
            assert(before.upcoming(i + 1) == fresh.upcoming(trace.pulled + (i + 1)));
        }
    }
}

/// A loop that has ended never runs again: further attempts change nothing.
pub proof fn lemma_ended_stays_ended<S: Strategy, T, E>(
    strategy: S,
    attempts: Seq<Attempt<T, E>>,
    m: nat,
    n: nat,
)
    requires
        m <= n,
        run_to(strategy, attempts, m).result is Some,
    ensures
        run_to(strategy, attempts, n) == run_to(strategy, attempts, m),
    decreases n - m,
{
    if m < n {
        lemma_ended_stays_ended(strategy, attempts, m, (n - 1) as nat);
    }
}

/// Every attempt before the loop's end counts: a loop that still runs after
/// `n` attempts has made `n` attempts.
pub proof fn lemma_running_counts_attempts<S: Strategy, T, E>(
    strategy: S,
    attempts: Seq<Attempt<T, E>>,
    n: nat,
)
    requires
        run_to(strategy, attempts, n).result is None,
    ensures
        run_to(strategy, attempts, n).attempts == n,
        forall|m: nat| m <= n ==> (#[trigger] run_to(strategy, attempts, m)).result is None,
    decreases n,
{
    if n > 0 {
        let before = run_to(strategy, attempts, (n - 1) as nat);
        if before.result is Some {
            assert(run_to(strategy, attempts, n) == before);
        }
        lemma_running_counts_attempts(strategy, attempts, (n - 1) as nat);
    }
}

/// A permanent error stops the loop after exactly one attempt, whatever the
/// strategy holds and whatever follows: the loop fails with that error,
/// without a pull and without a notification.
pub proof fn lemma_permanent_stops_at_once<S: Strategy, T, E>(
    strategy: S,
    attempts: Seq<Attempt<T, E>>,
    error: E,
)
    requires
        attempts.len() >= 1,
        attempts[0].outcome == Err::<T, RetryError<E>>(RetryError::Permanent(error)),
    ensures
        run(strategy, attempts) == (Trace::<T, E> {
            result: Some(Err(error)),
            attempts: 1,
            pulled: 0,
            notices: Seq::empty(),
        }),
{
    assert(run_to(strategy, attempts, 0) == Trace::<T, E>::start());
    assert(run_to(strategy, attempts, 1) == Trace::<T, E>::start().extended(strategy, attempts[0]));
    lemma_ended_stays_ended(strategy, attempts, 1, attempts.len());
}

/// A transient error's own delay is waited as it stands, and the strategy is
/// not pulled for it: the attempt is retried, the notification carries that
/// delay, and the count of pulls is as before.
pub proof fn lemma_own_delay_is_honoured<S: Strategy, T, E>(
    strategy: S,
    trace: Trace<T, E>,
    attempt: Attempt<T, E>,
)
    requires
        trace.result is None,
        attempt.accepted,
        attempt.outcome matches Err(RetryError::Transient { err, retry_after: Some(own) }),
    ensures
        trace.extended(strategy, attempt) == (Trace::<T, E> {
            result: None,
            attempts: trace.attempts + 1,
            pulled: trace.pulled,
            notices: trace.notices.push(
                Notice {
                    error: attempt.outcome->Err_0.error(),
                    delay: nanos(attempt.outcome->Err_0->retry_after->0),
                },
            ),
        }),
{
}

/// A transient error that the condition rejects stops the loop at that
/// attempt: the loop fails with that error, without a pull and without a
/// notification.
pub proof fn lemma_rejected_stops_at_once<S: Strategy, T, E>(
    strategy: S,
    trace: Trace<T, E>,
    attempt: Attempt<T, E>,
)
    requires
        trace.result is None,
        !attempt.accepted,
        attempt.outcome matches Err(RetryError::Transient { err, retry_after }),
    ensures
        trace.extended(strategy, attempt) == (Trace::<T, E> {
            result: Some(Err(attempt.outcome->Err_0.error())),
            attempts: trace.attempts + 1,
            pulled: trace.pulled,
            notices: trace.notices,
        }),
{
}

/// While the attempts are retryable and the strategy has delays to give, the
/// loop goes on: after `n` such attempts it still runs, has pulled `n` times
/// and has made `n` notifications, each with the error of its attempt and the
/// strategy's delay of that position.
pub proof fn lemma_retries_while_delays_last<S: Strategy, T, E>(
    strategy: S,
    attempts: Seq<Attempt<T, E>>,
    n: nat,
)
    requires
        n <= attempts.len(),
        forall|i: int| 0 <= i < n ==> (#[trigger] attempts[i]).retryable(),
        forall|i: nat| i < n ==> (#[trigger] strategy.upcoming(i)) is Some,
    ensures
        ({
            let trace = run_to(strategy, attempts, n);
            &&& trace.result is None
            &&& trace.attempts == n
            &&& trace.pulled == n
            &&& trace.notices.len() == n
            &&& forall|i: int|
                0 <= i < n ==> #[trigger] trace.notices[i] == (Notice {
                    error: attempts[i].outcome->Err_0.error(),
                    delay: strategy.upcoming(i as nat)->0,
                })
        }),
    decreases n,
{
    if n > 0 {
        let m = (n - 1) as nat;
        lemma_retries_while_delays_last(strategy, attempts, m);
        assert(attempts[m as int].retryable());
        assert(strategy.upcoming(m) is Some);
    }
}

/// Over a strategy that gives exactly `k` delays, a loop whose every attempt
/// raises a retryable error makes exactly `k + 1` attempts and `k`
/// notifications, and fails with the error of the last attempt made.
pub proof fn lemma_fails_when_strategy_ends<S: Strategy, T, E>(
    strategy: S,
    attempts: Seq<Attempt<T, E>>,
    k: nat,
)
    requires
        attempts.len() > k,
        forall|i: int| 0 <= i <= k ==> (#[trigger] attempts[i]).retryable(),
        forall|i: nat| i < k ==> (#[trigger] strategy.upcoming(i)) is Some,
        strategy.upcoming(k) is None,
    ensures
        run_to(strategy, attempts, k).result is None,
        ({
            let trace = run(strategy, attempts);
            &&& trace.result == Some(Err::<T, E>(attempts[k as int].outcome->Err_0.error()))
            &&& trace.attempts == k + 1
            &&& trace.pulled == k + 1
            &&& trace.notices.len() == k
            &&& forall|i: int|
                0 <= i < k ==> #[trigger] trace.notices[i] == (Notice {
                    error: attempts[i].outcome->Err_0.error(),
                    delay: strategy.upcoming(i as nat)->0,
                })
        }),
{
    lemma_retries_while_delays_last(strategy, attempts, k);
    assert(attempts[k as int].retryable());
    let last = run_to(strategy, attempts, k + 1);
    assert(last == run_to(strategy, attempts, k).extended(strategy, attempts[k as int]));
    lemma_ended_stays_ended(strategy, attempts, k + 1, attempts.len());
}

/// A loop whose first `n` attempts raise retryable errors and whose next one
/// succeeds makes exactly `n + 1` attempts and `n` notifications, each with
/// the strategy's delay of its position, and ends with the value, where the
/// strategy has `n` delays to give.
pub proof fn lemma_succeeds_after_retries<S: Strategy, T, E>(
    strategy: S,
    attempts: Seq<Attempt<T, E>>,
    n: nat,
    value: T,
)
    requires
        attempts.len() > n,
        forall|i: int| 0 <= i < n ==> (#[trigger] attempts[i]).retryable(),
        forall|i: nat| i < n ==> (#[trigger] strategy.upcoming(i)) is Some,
        attempts[n as int].outcome == Ok::<T, RetryError<E>>(value),
    ensures
        run_to(strategy, attempts, n).result is None,
        ({
            let trace = run(strategy, attempts);
            &&& trace.result == Some(Ok::<T, E>(value))
            &&& trace.attempts == n + 1
            &&& trace.pulled == n
            &&& trace.notices.len() == n
            &&& forall|i: int|
                0 <= i < n ==> #[trigger] trace.notices[i] == (Notice {
                    error: attempts[i].outcome->Err_0.error(),
                    delay: strategy.upcoming(i as nat)->0,
                })
        }),
{
    lemma_retries_while_delays_last(strategy, attempts, n);
    let last = run_to(strategy, attempts, n + 1);
    assert(last == run_to(strategy, attempts, n).extended(strategy, attempts[n as int]));
    lemma_ended_stays_ended(strategy, attempts, n + 1, attempts.len());
}

} // verus!
