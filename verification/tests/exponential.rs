use retry::backoff::{Backoff, BackoffBuilder};
use retry::duration::Duration;
use retry::exponential::ExponentialBuilder;

#[test]
fn test_exponential_default() {
    let mut exp = ExponentialBuilder::default().build();

    assert_eq!(Some(Duration::from_secs(1)), exp.next());
    assert_eq!(Some(Duration::from_secs(2)), exp.next());
    assert_eq!(Some(Duration::from_secs(4)), exp.next());
    assert_eq!(None, exp.next());
}

#[test]
fn test_exponential_factor() {
    let mut exp = ExponentialBuilder::default().with_factor(3, 2).build();

    assert_eq!(Some(Duration::from_millis(1000)), exp.next());
    assert_eq!(Some(Duration::from_millis(1500)), exp.next());
    assert_eq!(Some(Duration::from_millis(2250)), exp.next());
    assert_eq!(None, exp.next());
}

#[test]
fn test_exponential_jitter() {
    let mut exp = ExponentialBuilder::default().with_jitter().build();

    let v = exp.next().expect("value must valid");
    assert!(v >= Duration::from_secs(1), "current: {v:?}");
    assert!(v < Duration::from_secs(2), "current: {v:?}");

    let v = exp.next().expect("value must valid");
    assert!(v >= Duration::from_secs(2), "current: {v:?}");
    assert!(v < Duration::from_secs(4), "current: {v:?}");

    let v = exp.next().expect("value must valid");
    assert!(v >= Duration::from_secs(4), "current: {v:?}");
    assert!(v < Duration::from_secs(8), "current: {v:?}");
}

#[test]
fn test_exponential_min_delay() {
    let mut exp = ExponentialBuilder::default().with_min_delay(Duration::from_millis(500)).build();

    assert_eq!(Some(Duration::from_millis(500)), exp.next());
    assert_eq!(Some(Duration::from_millis(1000)), exp.next());
    assert_eq!(Some(Duration::from_millis(2000)), exp.next());
    assert_eq!(None, exp.next());
}

#[test]
fn exponential_growth_skipped_at_cap() {
    // 10ms doubling against a 25ms cap: 10, 20, 40, then pinned at 40
    let mut exp = ExponentialBuilder::default()
        .with_min_delay(Duration::from_millis(10))
        .with_max_delay(Duration::from_millis(25))
        .with_max_times(5)
        .build();

    assert_eq!(Some(Duration::from_millis(10)), exp.next());
    assert_eq!(Some(Duration::from_millis(20)), exp.next());
    assert_eq!(Some(Duration::from_millis(40)), exp.next());
    assert_eq!(Some(Duration::from_millis(40)), exp.next());
    assert_eq!(Some(Duration::from_millis(40)), exp.next());
    assert_eq!(None, exp.next());
}

#[test]
fn two_sequences_from_one_factory_emit_identical_delays() {
    let factory = ExponentialBuilder::default()
        .with_min_delay(Duration::from_millis(7))
        .with_factor(3, 2)
        .with_max_times(6);
    let mut a = factory.build();
    let mut b = factory.build();
    let mut seen_a = Vec::new();
    let mut seen_b = Vec::new();
    while let Some(d) = a.next() {
        seen_a.push(d);
    }
    while let Some(d) = b.next() {
        seen_b.push(d);
    }
    assert_eq!(seen_a.len(), 6);
    assert_eq!(seen_a, seen_b);
}

#[test]
fn jitter_is_added_to_the_emission_not_the_baseline() {
    // even with jitter on, the fourth emission's floor shows the
    // unjittered baseline grew 5 -> 10 -> 20 -> 40
    let mut exp = ExponentialBuilder::default()
        .with_min_delay(Duration::from_millis(5))
        .with_jitter()
        .with_max_times(4)
        .build();
    let mut last = Duration::from_millis(0);
    for _ in 0..4 {
        last = exp.next().expect("value must valid");
    }
    assert!(last >= Duration::from_millis(40));
    assert!(last < Duration::from_millis(45));
}
