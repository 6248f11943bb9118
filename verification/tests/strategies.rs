use retry_backoff::strategy::{
    ExponentialBackoff, ExponentialFactorBackoff, FibonacciBackoff, FixedInterval, LinearBackoff,
    MaxInterval, Strategy, Take,
};
use std::time::Duration;

fn pull<S: Strategy>(strategy: &mut S, n: usize) -> Vec<Option<Duration>> {
    let mut delays = Vec::new();
    for _ in 0..n {
        delays.push(strategy.next());
    }
    delays
}

fn millis(values: &[u64]) -> Vec<Option<Duration>> {
    values.iter().map(|v| Some(Duration::from_millis(*v))).collect()
}

#[test]
fn fixed_interval_repeats_its_delay() {
    let mut s = FixedInterval::from_millis(123);
    assert_eq!(pull(&mut s, 4), millis(&[123, 123, 123, 123]));

    let mut s = FixedInterval::new(Duration::from_nanos(7));
    assert_eq!(s.next(), Some(Duration::from_nanos(7)));
    assert_eq!(s.next(), Some(Duration::from_nanos(7)));
}

#[test]
fn exponential_returns_the_powers_of_its_base() {
    let mut s = ExponentialBackoff::from_millis(2);
    assert_eq!(pull(&mut s, 5), millis(&[2, 4, 8, 16, 32]));

    let mut s = ExponentialBackoff::from_millis(10);
    assert_eq!(pull(&mut s, 3), millis(&[10, 100, 1000]));
}

#[test]
fn exponential_with_base_one_or_zero_is_constant() {
    let mut s = ExponentialBackoff::from_millis(1);
    assert_eq!(pull(&mut s, 3), millis(&[1, 1, 1]));

    let mut s = ExponentialBackoff::from_millis(0).factor(1000);
    assert_eq!(pull(&mut s, 3), millis(&[0, 0, 0]));
}

#[test]
fn exponential_factor_scales_what_is_given() {
    let mut s = ExponentialBackoff::from_millis(2).factor(1000);
    assert_eq!(s.next(), Some(Duration::from_secs(2)));
    assert_eq!(s.next(), Some(Duration::from_secs(4)));
    assert_eq!(s.next(), Some(Duration::from_secs(8)));

    let mut s = ExponentialBackoff::from_millis(10).factor(1);
    assert_eq!(pull(&mut s, 3), millis(&[10, 100, 1000]));
}

#[test]
fn exponential_saturates_at_maximum_value() {
    let mut s = ExponentialBackoff::from_millis(u64::MAX - 1);
    assert_eq!(s.next(), Some(Duration::from_millis(u64::MAX - 1)));
    assert_eq!(s.next(), Some(Duration::from_millis(u64::MAX)));
    assert_eq!(s.next(), Some(Duration::from_millis(u64::MAX)));

    let mut s = ExponentialBackoff::from_millis(1 << 32).factor(1 << 33);
    assert_eq!(s.next(), Some(Duration::from_millis(u64::MAX)));
    assert_eq!(s.next(), Some(Duration::from_millis(u64::MAX)));
}

#[test]
fn exponential_stops_increasing_at_max_delay() {
    let mut s = ExponentialBackoff::from_millis(2).max_delay(Duration::from_millis(4));
    assert_eq!(pull(&mut s, 4), millis(&[2, 4, 4, 4]));

    let mut s = ExponentialBackoff::from_millis(3).max_delay_millis(20);
    assert_eq!(pull(&mut s, 5), millis(&[3, 9, 20, 20, 20]));
}

#[test]
fn exponential_returns_max_when_max_less_than_base() {
    let mut s = ExponentialBackoff::from_millis(20).max_delay(Duration::from_millis(10));
    assert_eq!(pull(&mut s, 2), millis(&[10, 10]));
}

#[test]
fn exponential_factor_backoff_multiplies_by_its_factor() {
    let mut s = ExponentialFactorBackoff::from_millis(500, 2);
    assert_eq!(pull(&mut s, 4), millis(&[500, 1000, 2000, 4000]));

    let mut s = ExponentialFactorBackoff::from_millis(7, 1);
    assert_eq!(pull(&mut s, 3), millis(&[7, 7, 7]));

    let mut s = ExponentialFactorBackoff::from_millis(7, 3).max_delay_millis(50);
    assert_eq!(pull(&mut s, 5), millis(&[7, 21, 50, 50, 50]));

    let mut s = ExponentialFactorBackoff::from_millis(7, 3).max_delay(Duration::from_millis(20));
    assert_eq!(pull(&mut s, 3), millis(&[7, 20, 20]));
}

#[test]
fn exponential_factor_backoff_saturates() {
    let mut s = ExponentialFactorBackoff::from_millis(u64::MAX / 2, 3);
    assert_eq!(s.next(), Some(Duration::from_millis(u64::MAX / 2)));
    assert_eq!(s.next(), Some(Duration::from_millis(u64::MAX)));
    assert_eq!(s.next(), Some(Duration::from_millis(u64::MAX)));
}

#[test]
fn exponential_factor_backoff_with_factor_zero_falls_to_zero() {
    let mut s = ExponentialFactorBackoff::from_millis(5, 0);
    assert_eq!(pull(&mut s, 3), millis(&[5, 0, 0]));
}

#[test]
fn take_yields_exactly_that_many_delays() {
    let mut s = FixedInterval::from_millis(100).take(2);
    assert_eq!(s.next(), Some(Duration::from_millis(100)));
    assert_eq!(s.next(), Some(Duration::from_millis(100)));
    assert_eq!(s.next(), None);
    assert_eq!(s.next(), None);

    let mut s = LinearBackoff::from_millis(100).increment_millis(200).take(5);
    assert_eq!(
        pull(&mut s, 6),
        vec![
            Some(Duration::from_millis(100)),
            Some(Duration::from_millis(300)),
            Some(Duration::from_millis(500)),
            Some(Duration::from_millis(700)),
            Some(Duration::from_millis(900)),
            None,
        ]
    );

    let mut s = Take::new(FibonacciBackoff::from_millis(1), 0);
    assert_eq!(s.next(), None);
}

#[test]
fn take_of_a_shorter_strategy_ends_with_it() {
    let mut s = FixedInterval::from_millis(1).take(1).take(3);
    assert_eq!(pull(&mut s, 3), vec![Some(Duration::from_millis(1)), None, None]);
}

#[test]
fn take_without_explicit_increment_is_linear_in_the_initial_delay() {
    let mut s = LinearBackoff::from_millis(100).take(3);
    assert_eq!(
        pull(&mut s, 4),
        vec![
            Some(Duration::from_millis(100)),
            Some(Duration::from_millis(200)),
            Some(Duration::from_millis(300)),
            None,
        ]
    );
}

#[test]
fn max_interval_clamps_every_delay() {
    let mut s = ExponentialBackoff::from_millis(10).max_interval(500);
    assert_eq!(pull(&mut s, 4), millis(&[10, 100, 500, 500]));

    let mut s = MaxInterval::new(FixedInterval::from_millis(80), Duration::from_millis(30));
    assert_eq!(pull(&mut s, 2), millis(&[30, 30]));
}

#[test]
fn max_interval_is_independent_of_the_inner_ceiling() {
    let mut s = FibonacciBackoff::from_millis(10).max_delay_millis(40).max_interval(25);
    assert_eq!(pull(&mut s, 5), millis(&[10, 10, 20, 25, 25]));

    let mut s = FibonacciBackoff::from_millis(10).max_delay_millis(25).max_interval(40);
    assert_eq!(pull(&mut s, 5), millis(&[10, 10, 20, 25, 25]));
}

#[test]
fn max_interval_passes_the_end_through() {
    let mut s = FixedInterval::from_millis(80).take(1).max_interval(30);
    assert_eq!(pull(&mut s, 3), vec![Some(Duration::from_millis(30)), None, None]);
}

#[test]
fn every_strategy_is_non_decreasing_and_locks_at_its_ceiling() {
    let ceiling = Duration::from_millis(5_000);
    let mut linear = LinearBackoff::from_millis(7).increment_millis(13).max_delay(ceiling);
    let mut exponential = ExponentialBackoff::from_millis(3).factor(2).max_delay(ceiling);
    let mut factor = ExponentialFactorBackoff::from_millis(3, 4).max_delay(ceiling);
    let mut fibonacci = FibonacciBackoff::from_millis(3).factor(5).max_delay(ceiling);
    let mut fixed = FixedInterval::from_millis(3).max_interval(5_000);
    let mut previous = [Duration::ZERO; 5];
    for round in 0..1000 {
        let now = [
            linear.next().unwrap(),
            exponential.next().unwrap(),
            factor.next().unwrap(),
            fibonacci.next().unwrap(),
            fixed.next().unwrap(),
        ];
        for k in 0..5 {
            assert!(now[k] >= previous[k]);
            assert!(now[k] <= ceiling);
            if previous[k] == ceiling {
                assert_eq!(now[k], ceiling);
            }
        }
        if round == 999 {
            assert_eq!(&now[..4], &[ceiling; 4]);
            assert_eq!(now[4], Duration::from_millis(3));
        }
        previous = now;
    }
}

#[test]
fn a_fresh_instance_without_ceiling_gives_the_uncapped_series() {
    let mut capped = FibonacciBackoff::from_millis(10).max_delay_millis(30);
    assert_eq!(pull(&mut capped, 6), millis(&[10, 10, 20, 30, 30, 30]));
    let mut fresh = FibonacciBackoff::from_millis(10);
    assert_eq!(pull(&mut fresh, 6), millis(&[10, 10, 20, 30, 50, 80]));
}
