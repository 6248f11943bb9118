//! The decisions of a retry loop.
//!
//! The loop itself runs the operation and sleeps, which is the caller's part.
//! After each attempt it hands the attempt's result to the driver, which
//! classifies it, asks the condition, finds the delay, tells the notifier and
//! answers with the next [`Step`].

use crate::error::RetryError;
use crate::strategy::Strategy;
use crate::time::nanos;
use std::time::Duration;
use vstd::prelude::*;

verus! {

/// What the loop does after an attempt.
#[derive(Debug)]
pub enum Step<T, E> {
    /// The attempt succeeded: the loop ends with its value.
    Succeeded(T),
    /// The loop ends with the error of the last attempt.
    Failed(E),
    /// Wait for `delay`, then attempt again. `error` is what the attempt
    /// raised.
    Wait { error: E, delay: Duration },
}

/// The model of a [`Step`]: the same, with the delay in nanoseconds.
pub enum Decision<T, E> {
    Succeed(T),
    Fail(E),
    Retry { error: E, delay: nat },
}

impl<T, E> View for Step<T, E> {
    type V = Decision<T, E>;

    open spec fn view(&self) -> Decision<T, E> {
        match *self {
            Step::Succeeded(value) => Decision::Succeed(value),
            Step::Failed(error) => Decision::Fail(error),
            Step::Wait { error, delay } => Decision::Retry { error, delay: nanos(delay) },
        }
    }
}

/// Whether the attempt's result makes the driver pull a delay from the
/// strategy: it does for a transient error without a delay of its own that
/// the condition accepts, and for nothing else.
pub open spec fn pulls<T, E>(outcome: Result<T, RetryError<E>>, accepted: bool) -> bool {
    accepted && outcome matches Err(RetryError::Transient { err, retry_after: None })
}

/// What the driver decides after an attempt with result `outcome`, where
/// `accepted` is the condition's answer for a transient error and `head` is
/// the strategy's next delay.
///
/// Success ends the loop with the value. A permanent error ends it with the
/// error, and so does a transient one that the condition rejects. An accepted
/// transient error is retried after its own delay where it has one, else
/// after the strategy's next delay, and ends the loop where the strategy has
/// none left.
pub open spec fn decision<T, E>(
    outcome: Result<T, RetryError<E>>,
    accepted: bool,
    head: Option<nat>,
) -> Decision<T, E> {
    match outcome {
        Ok(value) => Decision::Succeed(value),
        Err(RetryError::Permanent(err)) => Decision::Fail(err),
        Err(RetryError::Transient { err, retry_after }) => if !accepted {
            Decision::Fail(err)
        } else {
            match retry_after {
                Some(own) => Decision::Retry { error: err, delay: nanos(own) },
                None => match head {
                    Some(delay) => Decision::Retry { error: err, delay },
                    None => Decision::Fail(err),
                },
            }
        },
    }
}

/// That `step` is the driver's answer to `outcome` under the condition's
/// answer `accepted`, and `after` the strategy that `before` has become: the
/// step is the decision, the strategy has lost its head where the driver
/// pulled and is untouched where it did not, and a delay of the error's own
/// is handed on as it came.
pub open spec fn settled<S: Strategy, T, E>(
    before: S,
    after: S,
    outcome: Result<T, RetryError<E>>,
    accepted: bool,
    step: Step<T, E>,
) -> bool {
    &&& step@ == decision(outcome, accepted, before.upcoming(0))
    &&& pulls(outcome, accepted) ==> forall|i: nat| #[trigger]
        after.upcoming(i) == before.upcoming(i + 1)
    &&& !pulls(outcome, accepted) ==> after == before
    &&& match outcome {
        Err(RetryError::Transient { err, retry_after: Some(own) }) => accepted ==> step
            == Step::<T, E>::Wait { error: err, delay: own },
        _ => true,
    }
}

/// The step that ends a loop on `outcome`: success with the value, failure
/// with the error, whatever its class.
pub open spec fn closing<T, E>(outcome: Result<T, RetryError<E>>) -> Step<T, E> {
    match outcome {
        Ok(value) => Step::Succeeded(value),
        Err(error) => Step::Failed(error.error()),
    }
}

/// Decides what follows an attempt, given the condition's answer.
pub fn decide<S: Strategy, T, E>(
    strategy: &mut S,
    outcome: Result<T, RetryError<E>>,
    accepted: bool,
) -> (step: Step<T, E>)
    ensures
        settled(*old(strategy), *final(strategy), outcome, accepted, step),
{
    match outcome {
        Ok(value) => Step::Succeeded(value),
        Err(RetryError::Permanent(err)) => Step::Failed(err),
        Err(RetryError::Transient { err, retry_after }) => {
            if !accepted {
                Step::Failed(err)
            } else {
                match retry_after {
                    Some(own) => Step::Wait { error: err, delay: own },
                    None => match strategy.next() {
                        Some(delay) => Step::Wait { error: err, delay },
                        None => Step::Failed(err),
                    },
                }
            }
        },
    }
}

/// Decides whether a transient error is worth another attempt.
pub trait Condition<E> {
    fn should_retry(&mut self, error: &E) -> bool;
}

/// Is told of every retry before the wait begins: the error that the attempt
/// raised and the delay about to be waited.
pub trait Notify<E> {
    fn notify(&mut self, err: &E, duration: Duration);
}

/// The condition that accepts every transient error.
pub struct Always;

impl<E> Condition<E> for Always {
    fn should_retry(&mut self, error: &E) -> (accepted: bool)
        ensures
            accepted,
    {
        true
    }
}

/// The notifier that does nothing.
pub struct Silent;

impl<E> Notify<E> for Silent {
    fn notify(&mut self, err: &E, duration: Duration) {
    }
}

/// The state of one retry loop: the strategy it pulls from, the condition and
/// the notifier where there are any, and whether the loop has ended.
pub struct Driver<S, C, N> {
    strategy: S,
    condition: Option<C>,
    notifier: Option<N>,
    finished: bool,
}

impl<S: Strategy> Driver<S, Always, Silent> {
    /// A driver that retries every transient error and notifies nobody.
    pub fn new(strategy: S) -> (driver: Self)
        ensures
            driver.strategy() == strategy,
            driver.condition() is None,
            driver.notifier() is None,
            !driver.finished(),
    {
        Driver { strategy, condition: None, notifier: None, finished: false }
    }
}

impl<S: Strategy, C, N> Driver<S, C, N> {
    /// The strategy as it stands now.
    pub closed spec fn strategy(&self) -> S {
        self.strategy
    }

    /// The condition that is asked before a transient error is retried, where
    /// there is one.
    pub closed spec fn condition(&self) -> Option<C> {
        self.condition
    }

    /// The notifier that is told of every retry, where there is one.
    pub closed spec fn notifier(&self) -> Option<N> {
        self.notifier
    }

    /// Whether a condition is asked before a transient error is retried.
    pub open spec fn conditional(&self) -> bool {
        self.condition() is Some
    }

    /// Whether the loop has ended: a step other than [`Step::Wait`] was given.
    pub closed spec fn finished(&self) -> bool {
        self.finished
    }

    /// Whether the loop has ended.
    pub fn is_finished(&self) -> (finished: bool)
        ensures
            finished == self.finished(),
    {
        self.finished
    }

    /// Retries only the transient errors that `condition` accepts.
    pub fn when<D>(self, condition: D) -> (driver: Driver<S, D, N>)
        ensures
            driver.strategy() == self.strategy(),
            driver.condition() == Some(condition),
            driver.notifier() == self.notifier(),
            driver.finished() == self.finished(),
    {
        Driver {
            strategy: self.strategy,
            condition: Some(condition),
            notifier: self.notifier,
            finished: self.finished,
        }
    }

    /// Tells `notifier` of every retry.
    pub fn notify<M>(self, notifier: M) -> (driver: Driver<S, C, M>)
        ensures
            driver.strategy() == self.strategy(),
            driver.condition() == self.condition(),
            driver.notifier() == Some(notifier),
            driver.finished() == self.finished(),
    {
        Driver {
            strategy: self.strategy,
            condition: self.condition,
            notifier: Some(notifier),
            finished: self.finished,
        }
    }

    /// Takes the result of an attempt and answers with the next step.
    ///
    /// The condition is asked only about a transient error, and only where the
    /// driver has one; without one every transient error is accepted. The
    /// notifier is told only of a [`Step::Wait`], with its error and delay,
    /// before the step is returned.
    ///
    /// The loop ends with the first step that is not a [`Step::Wait`]. A
    /// driver whose loop has ended never starts it again: it answers a further
    /// result with its value or its error, asks nobody, tells nobody and
    /// leaves the strategy alone.
    pub fn settle<T, E>(&mut self, outcome: Result<T, RetryError<E>>) -> (step: Step<T, E>) where
        C: Condition<E>,
        N: Notify<E>,

        ensures
            final(self).conditional() == old(self).conditional(),
            (final(self).notifier() is Some) == (old(self).notifier() is Some),
            final(self).finished() == !(step is Wait),
            !old(self).finished() ==> settled(
                old(self).strategy(),
                final(self).strategy(),
                outcome,
                true,
                step,
            ) || (old(self).conditional() && settled(
                old(self).strategy(),
                final(self).strategy(),
                outcome,
                false,
                step,
            )),
            old(self).finished() ==> *final(self) == *old(self) && step == closing::<T, E>(
                outcome,
            ),
    {
        if self.finished {
            return match outcome {
                Ok(value) => Step::Succeeded(value),
                Err(RetryError::Transient { err, retry_after }) => Step::Failed(err),
                Err(RetryError::Permanent(err)) => Step::Failed(err),
            };
        }
        let accepted = match &outcome {
            Err(RetryError::Transient { err, retry_after }) => match &mut self.condition {
                Some(condition) => condition.should_retry(err),
                None => true,
            },
            _ => true,
        };
        let step = decide(&mut self.strategy, outcome, accepted);
        match &step {
            Step::Wait { error, delay } => match &mut self.notifier {
                Some(notifier) => notifier.notify(error, *delay),
                None => {},
            },
            _ => {
                self.finished = true;
            },
        }
        step
    }
}

} // verus!
