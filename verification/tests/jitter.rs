use retry_backoff::strategy::{jitter_range, RangeJitter};
use std::time::Duration;

#[test]
fn test_jitter_range() {
    let jitter = jitter_range(0, 1).apply(Duration::from_millis(100));
    assert!(jitter.as_millis() <= 100);
    assert!(jitter.as_millis() != 100);
}

#[test]
fn jitter_range_draws_from_the_range() {
    for _ in 0..200 {
        let jitter = jitter_range(3, 6);
        assert!(jitter.factor() >= 3);
        assert!(jitter.factor() < 6);
    }
}

#[test]
fn jitter_range_of_one_number_multiplies_by_it() {
    let jitter = jitter_range(5, 6);
    assert_eq!(jitter.factor(), 5);
    assert_eq!(jitter.apply(Duration::from_millis(100)), Duration::from_millis(500));
    assert_eq!(jitter.apply(Duration::from_millis(3)), Duration::from_millis(15));
}

#[test]
fn jitter_keeps_its_multiplier() {
    let jitter = jitter_range(1, 1000);
    let first = jitter.apply(Duration::from_millis(1));
    let second = jitter.apply(Duration::from_millis(1));
    assert_eq!(first, second);
    assert_eq!(first, Duration::from_millis(1) * jitter.factor());
}

#[test]
fn checked_apply_reports_overflow() {
    let jitter = RangeJitter::with_multiplier(2);
    assert_eq!(jitter.checked_apply(Duration::MAX), None);
    assert_eq!(
        jitter.checked_apply(Duration::from_secs(u64::MAX / 2)),
        Some(Duration::from_secs(u64::MAX - 1))
    );
    assert_eq!(jitter.checked_apply(Duration::from_millis(21)), Some(Duration::from_millis(42)));

    let zero = RangeJitter::with_multiplier(0);
    assert_eq!(zero.checked_apply(Duration::MAX), Some(Duration::ZERO));
}
