use retry::backoff::{Backoff, BackoffBuilder};
use retry::constant::ConstantBuilder;
use retry::duration::Duration;

#[test]
fn test_constant_default() {
    let mut exp = ConstantBuilder::default().build();

    assert_eq!(Some(Duration::from_secs(1)), exp.next());
    assert_eq!(Some(Duration::from_secs(1)), exp.next());
    assert_eq!(Some(Duration::from_secs(1)), exp.next());
    assert_eq!(None, exp.next());
}

#[test]
fn test_constant_with_delay() {
    let mut exp = ConstantBuilder::default().with_delay(Duration::from_secs(2)).build();

    assert_eq!(Some(Duration::from_secs(2)), exp.next());
    assert_eq!(Some(Duration::from_secs(2)), exp.next());
    assert_eq!(Some(Duration::from_secs(2)), exp.next());
    assert_eq!(None, exp.next());
}

#[test]
fn test_constant_with_times() {
    let mut exp = ConstantBuilder::default().with_max_times(1).build();

    assert_eq!(Some(Duration::from_secs(1)), exp.next());
    assert_eq!(None, exp.next());
}

#[test]
fn fixed_two_seconds_one_wait_then_exhausted() {
    let mut seq = ConstantBuilder::default()
        .with_delay(Duration::from_secs(2))
        .with_max_times(1)
        .build();

    assert_eq!(Some(Duration::from_secs(2)), seq.next());
    assert_eq!(None, seq.next());
    assert_eq!(None, seq.next());
}

#[test]
fn constant_builds_are_independent() {
    let builder = ConstantBuilder::default().with_max_times(2);
    let mut a = builder.build();
    let mut b = builder.build();

    assert_eq!(Some(Duration::from_secs(1)), a.next());
    assert_eq!(Some(Duration::from_secs(1)), a.next());
    assert_eq!(None, a.next());
    // the second sequence is untouched by driving the first
    assert_eq!(Some(Duration::from_secs(1)), b.next());
    assert_eq!(Some(Duration::from_secs(1)), b.next());
    assert_eq!(None, b.next());
}
