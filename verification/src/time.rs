//! What this library relies on of `std::time::Duration`.
//!
//! Verus knows `Duration` only as an opaque type. The length of a duration is
//! therefore given a name, [`nanos`], and the few `Duration` operations that the
//! strategies call are given contracts over that name. These contracts are
//! taken on trust from the standard library's documentation; what the
//! strategies and the driver do is proved from them.

use std::time::Duration;
use vstd::prelude::*;

verus! {

/// Nanoseconds in one millisecond.
pub const NANOS_PER_MILLI: u64 = 1_000_000;

/// Nanoseconds in one second.
pub const NANOS_PER_SEC: u64 = 1_000_000_000;

/// The length of a duration, in whole nanoseconds.
pub uninterp spec fn nanos(d: Duration) -> nat;

/// The length of `Duration::MAX` in nanoseconds: `u64::MAX` seconds and
/// `999_999_999` nanoseconds.
pub open spec fn max_nanos() -> nat {
    (u64::MAX as nat) * (NANOS_PER_SEC as nat) + 999_999_999
}

/// `x` clamped to the longest representable duration.
pub open spec fn saturate(x: nat) -> nat {
    if x > max_nanos() {
        max_nanos()
    } else {
        x
    }
}

/// A delay clamped to an optional ceiling.
pub open spec fn capped(delay: nat, ceiling: Option<nat>) -> nat {
    match ceiling {
        Some(c) => if delay > c {
            c
        } else {
            delay
        },
        None => delay,
    }
}

/// `Duration::from_millis`: the duration is `millis` milliseconds long.
pub assume_specification[ Duration::from_millis ](millis: u64) -> (d: Duration)
    ensures
        nanos(d) == millis as nat * NANOS_PER_MILLI as nat,
;

/// `Duration::from_secs`: the duration is `secs` seconds long.
pub assume_specification[ Duration::from_secs ](secs: u64) -> (d: Duration)
    ensures
        nanos(d) == secs as nat * NANOS_PER_SEC as nat,
;

/// `Duration::saturating_add`: the sum of the two lengths, or `Duration::MAX`
/// where the sum is longer than that.
pub assume_specification[ Duration::saturating_add ](lhs: Duration, rhs: Duration) -> (d: Duration)
    ensures
        nanos(d) == saturate(nanos(lhs) + nanos(rhs)),
;

/// `Duration::saturating_mul`: the length times `rhs`, or `Duration::MAX` where
/// the product is longer than that.
pub assume_specification[ Duration::saturating_mul ](lhs: Duration, rhs: u32) -> (d: Duration)
    ensures
        nanos(d) == saturate(nanos(lhs) * rhs as nat),
;

/// `Duration::checked_mul`: the length times `rhs`, or `None` where the product
/// is longer than `Duration::MAX`.
pub assume_specification[ Duration::checked_mul ](lhs: Duration, rhs: u32) -> (d: Option<Duration>)
    ensures
        match d {
            Some(p) => nanos(p) == nanos(lhs) * rhs as nat && nanos(p) <= max_nanos(),
            None => nanos(lhs) * rhs as nat > max_nanos(),
        },
;

/// `Clone::clone` on a duration: the copy is the duration itself.
pub assume_specification[ <Duration as Clone>::clone ](d: &Duration) -> (copy: Duration)
    ensures
        copy == *d,
;

/// `<=` on `Duration`: durations are ordered by their length.
#[verifier::external_body]
pub(crate) fn at_most(a: Duration, b: Duration) -> (r: bool)
    ensures
        r == (nanos(a) <= nanos(b)),
{
    a <= b
}

/// The shorter of two durations; the first where they are equally long.
pub(crate) fn shorter(a: Duration, b: Duration) -> (r: Duration)
    ensures
        r == if nanos(a) <= nanos(b) { a } else { b },
{
    if at_most(a, b) {
        a
    } else {
        b
    }
}

} // verus!
