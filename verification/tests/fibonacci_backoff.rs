use retry_backoff::strategy::{FibonacciBackoff, Strategy};
use std::time::Duration;

#[test]
fn returns_the_fibonacci_series_starting_at_10() {
    let mut iter = FibonacciBackoff::from_millis(10);
    assert_eq!(iter.next(), Some(Duration::from_millis(10)));
    assert_eq!(iter.next(), Some(Duration::from_millis(10)));
    assert_eq!(iter.next(), Some(Duration::from_millis(20)));
    assert_eq!(iter.next(), Some(Duration::from_millis(30)));
    assert_eq!(iter.next(), Some(Duration::from_millis(50)));
    assert_eq!(iter.next(), Some(Duration::from_millis(80)));
}

#[test]
fn saturates_at_maximum_value() {
    let mut iter = FibonacciBackoff::from_millis(u64::MAX);
    assert_eq!(iter.next(), Some(Duration::from_millis(u64::MAX)));
    assert_eq!(iter.next(), Some(Duration::from_millis(u64::MAX)));
}

#[test]
fn stops_increasing_at_max_delay() {
    let mut iter = FibonacciBackoff::from_millis(10).max_delay(Duration::from_millis(50));
    assert_eq!(iter.next(), Some(Duration::from_millis(10)));
    assert_eq!(iter.next(), Some(Duration::from_millis(10)));
    assert_eq!(iter.next(), Some(Duration::from_millis(20)));
    assert_eq!(iter.next(), Some(Duration::from_millis(30)));
    assert_eq!(iter.next(), Some(Duration::from_millis(50)));
    assert_eq!(iter.next(), Some(Duration::from_millis(50)));
}

#[test]
fn returns_max_when_max_less_than_base() {
    let mut iter = FibonacciBackoff::from_millis(20).max_delay(Duration::from_millis(10));

    assert_eq!(iter.next(), Some(Duration::from_millis(10)));
    assert_eq!(iter.next(), Some(Duration::from_millis(10)));
}

#[test]
fn can_use_factor_to_get_seconds() {
    let factor = 1000;
    let mut s = FibonacciBackoff::from_millis(1).factor(factor);

    assert_eq!(s.next(), Some(Duration::from_secs(1)));
    assert_eq!(s.next(), Some(Duration::from_secs(1)));
    assert_eq!(s.next(), Some(Duration::from_secs(2)));
}

#[test]
fn fibonacci_ceiling_in_milliseconds() {
    let mut s = FibonacciBackoff::from_millis(10).max_delay_millis(25);

    assert_eq!(s.next(), Some(Duration::from_millis(10)));
    assert_eq!(s.next(), Some(Duration::from_millis(10)));
    assert_eq!(s.next(), Some(Duration::from_millis(20)));
    assert_eq!(s.next(), Some(Duration::from_millis(25)));
    assert_eq!(s.next(), Some(Duration::from_millis(25)));
}

#[test]
fn fibonacci_factor_scales_without_changing_the_series() {
    let mut plain = FibonacciBackoff::from_millis(3);
    let mut scaled = FibonacciBackoff::from_millis(3).factor(7);
    for _ in 0..40 {
        let p = plain.next().unwrap();
        let s = scaled.next().unwrap();
        assert_eq!(s, p * 7);
    }
}

#[test]
fn fibonacci_factor_saturates() {
    let mut s = FibonacciBackoff::from_millis(u64::MAX / 2).factor(3);

    assert_eq!(s.next(), Some(Duration::from_millis(u64::MAX)));
    assert_eq!(s.next(), Some(Duration::from_millis(u64::MAX)));
}

#[test]
fn fibonacci_zero_factor_gives_no_delay() {
    let mut s = FibonacciBackoff::from_millis(10).factor(0);

    assert_eq!(s.next(), Some(Duration::ZERO));
    assert_eq!(s.next(), Some(Duration::ZERO));
    assert_eq!(s.next(), Some(Duration::ZERO));
}

#[test]
fn fibonacci_never_decreases_and_locks_in() {
    let mut s = FibonacciBackoff::from_millis(1 << 40);
    let mut previous = Duration::ZERO;
    for _ in 0..200 {
        let delay = s.next().unwrap();
        assert!(delay >= previous);
        previous = delay;
    }
    assert_eq!(previous, Duration::from_millis(u64::MAX));
    assert_eq!(s.next(), Some(Duration::from_millis(u64::MAX)));
}

#[test]
fn fibonacci_ceiling_holds_once_reached() {
    let mut s = FibonacciBackoff::from_millis(10).max_delay_millis(1000);
    let mut reached = false;
    for _ in 0..120 {
        let delay = s.next().unwrap();
        assert!(delay <= Duration::from_millis(1000));
        if reached {
            assert_eq!(delay, Duration::from_millis(1000));
        }
        reached = reached || delay == Duration::from_millis(1000);
    }
    assert!(reached);
}
