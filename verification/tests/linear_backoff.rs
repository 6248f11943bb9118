use retry_backoff::strategy::{LinearBackoff, Strategy};
use std::time::Duration;

#[test]
fn returns_linear() {
    let mut s = LinearBackoff::new(Duration::from_millis(123));

    assert_eq!(s.next(), Some(Duration::from_millis(123)));
    assert_eq!(s.next(), Some(Duration::from_millis(246)));
    assert_eq!(s.next(), Some(Duration::from_millis(369)));
}

#[test]
fn returns_linear_max_delay() {
    let mut s = LinearBackoff::from_millis(123).max_delay_millis(300);

    assert_eq!(s.next(), Some(Duration::from_millis(123)));
    assert_eq!(s.next(), Some(Duration::from_millis(246)));
    assert_eq!(s.next(), Some(Duration::from_millis(300)));
}

#[test]
fn returns_linear_with_increment() {
    let mut s = LinearBackoff::new(Duration::from_millis(123)).increment_millis(20);

    assert_eq!(s.next(), Some(Duration::from_millis(123)));
    assert_eq!(s.next(), Some(Duration::from_millis(143)));
    assert_eq!(s.next(), Some(Duration::from_millis(163)));
}

#[test]
fn returns_linear_with_increment_secs() {
    let mut s = LinearBackoff::new(Duration::from_secs(1)).increment_secs(2);

    assert_eq!(s.next(), Some(Duration::from_secs(1)));
    assert_eq!(s.next(), Some(Duration::from_secs(3)));
    assert_eq!(s.next(), Some(Duration::from_secs(5)));
}

#[test]
fn returns_linear_max_delay_duration() {
    let mut s = LinearBackoff::new(Duration::from_millis(100))
        .increment(Duration::from_millis(70))
        .max_delay(Duration::from_millis(200));

    assert_eq!(s.next(), Some(Duration::from_millis(100)));
    assert_eq!(s.next(), Some(Duration::from_millis(170)));
    assert_eq!(s.next(), Some(Duration::from_millis(200)));
}

#[test]
fn linear_from_secs_grows_by_its_initial_delay() {
    let mut s = LinearBackoff::from_secs(2);

    assert_eq!(s.next(), Some(Duration::from_secs(2)));
    assert_eq!(s.next(), Some(Duration::from_secs(4)));
    assert_eq!(s.next(), Some(Duration::from_secs(6)));
    assert_eq!(s.next(), Some(Duration::from_secs(8)));
}

#[test]
fn linear_with_zero_increment_is_constant() {
    let mut s = LinearBackoff::from_millis(40).increment(Duration::ZERO);

    assert_eq!(s.next(), Some(Duration::from_millis(40)));
    assert_eq!(s.next(), Some(Duration::from_millis(40)));
}

#[test]
fn linear_saturates_at_the_longest_duration() {
    let mut s = LinearBackoff::new(Duration::MAX).increment_secs(1);

    assert_eq!(s.next(), Some(Duration::MAX));
    assert_eq!(s.next(), Some(Duration::MAX));

    let mut s = LinearBackoff::from_secs(1).increment(Duration::MAX);

    assert_eq!(s.next(), Some(Duration::from_secs(1)));
    assert_eq!(s.next(), Some(Duration::MAX));
    assert_eq!(s.next(), Some(Duration::MAX));
}

#[test]
fn linear_stays_at_its_ceiling() {
    let mut s = LinearBackoff::from_millis(100).max_delay_millis(250);
    let mut previous = Duration::ZERO;
    for _ in 0..50 {
        let delay = s.next().unwrap();
        assert!(delay >= previous);
        assert!(delay <= Duration::from_millis(250));
        previous = delay;
    }
    assert_eq!(previous, Duration::from_millis(250));
}

#[test]
fn linear_ceiling_below_the_initial_delay() {
    let mut s = LinearBackoff::from_millis(100).max_delay(Duration::from_millis(30));

    assert_eq!(s.next(), Some(Duration::from_millis(30)));
    assert_eq!(s.next(), Some(Duration::from_millis(30)));
}

#[test]
fn linear_clone_starts_where_its_source_stands() {
    let mut s = LinearBackoff::from_millis(10);
    assert_eq!(s.next(), Some(Duration::from_millis(10)));
    let mut t = s.clone();
    assert_eq!(s.next(), Some(Duration::from_millis(20)));
    assert_eq!(t.next(), Some(Duration::from_millis(20)));
}
