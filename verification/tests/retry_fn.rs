use std::cell::RefCell;

use retry::backoff::{Backoff, NoSleep};
use retry::delay::Fixed;
use retry::duration::Duration;
use retry::opresult::OperationResult;
use retry::{retry, retry_with_index};

#[test]
fn succeeds_with_fixed_delay() {
    let collecttion = RefCell::new(vec![1, 2, 3, 4].into_iter());
    let mut sleeper = NoSleep;
    let value = retry(
        Fixed::from_millis(1000).take(2),
        || {
            OperationResult::from(match collecttion.borrow_mut().next() {
                Some(n) if n == 2 => Ok(n),
                Some(_) => Err("not 2"),
                None => Err("none"),
            })
        },
        &mut sleeper,
    )
    .unwrap();
    assert_eq!(value, 2);
}

#[test]
fn exhaustion_reports_last_error_waits_and_tries() {
    let mut sleeper = NoSleep;
    let result: Result<u32, retry::Error<&str>> = retry(
        Fixed::from_millis(10).take(2),
        || OperationResult::<u32, &str>::Retry("boom"),
        &mut sleeper,
    );
    let err = result.unwrap_err();
    assert_eq!(err.error, "boom");
    // two waits of 10ms each were consumed before exhaustion
    assert_eq!(err.total_delay, Duration::from_millis(20));
    // one initial call and two retries
    assert_eq!(err.tries, 3);
}

#[test]
fn fatal_outcome_stops_at_once_with_no_wait() {
    let mut sleeper = NoSleep;
    let result: Result<u32, retry::Error<&str>> = retry(
        Fixed::from_millis(10).take(5),
        || OperationResult::<u32, &str>::Fatal("bad request"),
        &mut sleeper,
    );
    let err = result.unwrap_err();
    assert_eq!(err.error, "bad request");
    assert_eq!(err.total_delay, Duration::from_millis(0));
    assert_eq!(err.tries, 1);
}

#[test]
fn retry_with_index_counts_attempts_from_one() {
    let seen = RefCell::new(Vec::new());
    let mut sleeper = NoSleep;
    let value = retry_with_index(
        Fixed::from_millis(1).take(5),
        |i: u64| {
            seen.borrow_mut().push(i);
            if i < 3 {
                OperationResult::<u64, &str>::Retry("again")
            } else {
                OperationResult::<u64, &str>::Success(i)
            }
        },
        &mut sleeper,
    )
    .unwrap();
    assert_eq!(value, 3);
    assert_eq!(*seen.borrow(), vec![1, 2, 3]);
}

#[test]
fn infinite_fixed_sequence_keeps_emitting() {
    let mut seq = Fixed::from_millis(250);
    for _ in 0..10 {
        assert_eq!(seq.next(), Some(Duration::from_millis(250)));
    }
}
