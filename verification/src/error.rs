//! The classification of a failed attempt.

use std::time::Duration;
use vstd::prelude::*;

verus! {

/// What an operation reports when an attempt fails: whether another attempt
/// is worth making, and the error itself.
#[derive(Debug)]
pub enum RetryError<E> {
    /// The failure may pass: try again. With `retry_after` the operation
    /// itself says how long to wait; without it the strategy does.
    Transient { err: E, retry_after: Option<Duration> },
    /// The failure will not pass: stop now.
    Permanent(E),
}

impl<E> RetryError<E> {
    /// The error that the operation raised, whatever its class.
    pub open spec fn error(self) -> E {
        match self {
            RetryError::Transient { err, retry_after } => err,
            RetryError::Permanent(err) => err,
        }
    }

    /// A permanent failure.
    pub fn permanent(err: E) -> (e: Self)
        ensures
            e == RetryError::Permanent(err),
    {
        RetryError::Permanent(err)
    }

    /// A transient failure, to be retried after the strategy's next delay.
    pub fn transient(err: E) -> (e: Self)
        ensures
            e == (RetryError::Transient { err, retry_after: None }),
    {
        RetryError::Transient { err, retry_after: None }
    }

    /// A transient failure, to be retried after `duration`.
    pub fn retry_after(err: E, duration: Duration) -> (e: Self)
        ensures
            e == (RetryError::Transient { err, retry_after: Some(duration) }),
    {
        RetryError::Transient { err, retry_after: Some(duration) }
    }

    /// A permanent failure as the `Err` of an attempt's result.
    pub fn to_permanent<T>(err: E) -> (r: Result<T, Self>)
        ensures
            r == Err::<T, Self>(RetryError::Permanent(err)),
    {
        Err(RetryError::Permanent(err))
    }

    /// A transient failure as the `Err` of an attempt's result.
    pub fn to_transient<T>(err: E) -> (r: Result<T, Self>)
        ensures
            r == Err::<T, Self>(RetryError::Transient { err, retry_after: None }),
    {
        Err(RetryError::Transient { err, retry_after: None })
    }

    /// A transient failure with its own delay as the `Err` of an attempt's
    /// result.
    pub fn to_retry_after<T>(err: E, duration: Duration) -> (r: Result<T, Self>)
        ensures
            r == Err::<T, Self>(RetryError::Transient { err, retry_after: Some(duration) }),
    {
        Err(RetryError::Transient { err, retry_after: Some(duration) })
    }
}

} // verus!
