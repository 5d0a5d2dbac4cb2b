use std::cell::Cell;
use std::sync::Mutex;

use retry::backoff::{NoSleep, Sleeper};
use retry::blocking_retry::BlockingRetryable;
use retry::duration::Duration;
use retry::exponential::ExponentialBuilder;

fn always_error() -> Result<(), anyhow::Error> {
    Err(anyhow::Error::msg("test_query meets error"))
}

#[test]
fn blocking_retry_test_retry() {
    let mut sleeper = NoSleep;
    let result = always_error
        .retry(&ExponentialBuilder::default().with_min_delay(Duration::from_millis(1)))
        .call(&mut sleeper);
    assert!(result.is_err());
    assert_eq!("test_query meets error", result.unwrap_err().to_string());
}

#[test]
fn blocking_retry_test_retry_with_not_retryable_error() {
    let error_times = Mutex::new(0);
    let f = || {
        let mut x = error_times.lock().unwrap();
        *x += 1;
        Err::<(), anyhow::Error>(anyhow::Error::msg("not retryable"))
    };
    let backoff = ExponentialBuilder::default().with_min_delay(Duration::from_millis(1));
    let mut sleeper = NoSleep;
    let result = f
        .retry(&backoff)
        .when(|e: &anyhow::Error| e.to_string() == "retryable")
        .call(&mut sleeper);
    assert!(result.is_err());
    assert_eq!("not retryable", result.unwrap_err().to_string());
    assert_eq!(*error_times.lock().unwrap(), 1);
}

#[test]
fn blocking_retry_test_retry_with_retryable_error() {
    let error_times = Mutex::new(0);
    let f = || {
        let mut x = error_times.lock().unwrap();
        *x += 1;
        Err::<(), anyhow::Error>(anyhow::Error::msg("retryable"))
    };
    let backoff = ExponentialBuilder::default().with_min_delay(Duration::from_millis(1));
    let mut sleeper = NoSleep;
    let result = f
        .retry(&backoff)
        .when(|e: &anyhow::Error| e.to_string() == "retryable")
        .call(&mut sleeper);
    assert!(result.is_err());
    assert_eq!("retryable", result.unwrap_err().to_string());
    // one initial call and three retries: the default policy allows
    // exactly three waits
    assert_eq!(*error_times.lock().unwrap(), 4);
}

struct CountingSleeper {
    count: usize,
}

impl Sleeper for CountingSleeper {
    fn sleep(&mut self, _d: Duration) {
        self.count += 1;
    }
}

#[test]
fn fatal_failure_is_invoked_once_without_notify_or_wait() {
    let calls = Cell::new(0usize);
    let notifies = Cell::new(0usize);
    let f = || {
        calls.set(calls.get() + 1);
        Err::<(), String>("db is gone".to_string())
    };
    let mut sleeper = CountingSleeper { count: 0 };
    let result = f
        .retry(&ExponentialBuilder::default())
        .when(|_e: &String| false)
        .notify(|_e: &String, _d: Duration| {
            notifies.set(notifies.get() + 1);
        })
        .call(&mut sleeper);
    assert!(result.is_err());
    assert_eq!(calls.get(), 1);
    assert_eq!(notifies.get(), 0);
    assert_eq!(sleeper.count, 0);
}

#[test]
fn notify_fires_once_per_retryable_failure_before_the_wait() {
    let notifies = Cell::new(0usize);
    let f = || Err::<(), String>("flaky".to_string());
    let mut sleeper = CountingSleeper { count: 0 };
    let result = f
        .retry(&ExponentialBuilder::default().with_max_times(2))
        .notify(|_e: &String, _d: Duration| {
            notifies.set(notifies.get() + 1);
        })
        .call(&mut sleeper);
    assert!(result.is_err());
    // two waits were consumed, and the hook saw each of them
    assert_eq!(notifies.get(), 2);
    assert_eq!(sleeper.count, 2);
}

#[test]
fn success_after_transient_failures_returns_the_value() {
    let calls = Cell::new(0usize);
    let f = || {
        calls.set(calls.get() + 1);
        if calls.get() < 3 {
            Err::<u32, String>("not yet".to_string())
        } else {
            Ok(42)
        }
    };
    let mut sleeper = NoSleep;
    let result = f.retry(&ExponentialBuilder::default()).call(&mut sleeper);
    assert_eq!(result.unwrap(), 42);
    assert_eq!(calls.get(), 3);
}
