use std::cell::Cell;

use retry::backoff::BackoffBuilder;
use retry::duration::Duration;
use retry::exponential::ExponentialBuilder;
use retry::suspend::{Action, Retry, RetryState};

fn always_error() -> Result<(), anyhow::Error> {
    Err(anyhow::Error::msg("test_query meets error"))
}

#[test]
fn retry_test_retry() {
    let mut calls = 0;
    let mut m = Retry::new(
        ExponentialBuilder::default().with_min_delay(Duration::from_millis(1)).build(),
    );
    let result = loop {
        m.start();
        calls += 1;
        match m.on_op_complete(always_error()) {
            Action::Finish(r) => break r,
            Action::StartTimer(_d) => m.on_timer_fired(),
        }
    };
    assert!(result.is_err());
    assert_eq!("test_query meets error", result.unwrap_err().to_string());
    assert_eq!(calls, 4);
}

#[test]
fn retry_test_retry_with_not_retryable_error() {
    let mut error_times = 0;
    let mut m = Retry::new(
        ExponentialBuilder::default().with_min_delay(Duration::from_millis(1)).build(),
    )
    .when(|e: &anyhow::Error| e.to_string() == "retryable");
    let result = loop {
        m.start();
        error_times += 1;
        let out = Err::<(), anyhow::Error>(anyhow::Error::msg("not retryable"));
        match m.on_op_complete(out) {
            Action::Finish(r) => break r,
            Action::StartTimer(_d) => m.on_timer_fired(),
        }
    };
    assert!(result.is_err());
    assert_eq!("not retryable", result.unwrap_err().to_string());
    assert_eq!(error_times, 1);
}

#[test]
fn retry_test_retry_with_retryable_error() {
    let mut error_times = 0;
    let mut m = Retry::new(
        ExponentialBuilder::default().with_min_delay(Duration::from_millis(1)).build(),
    )
    .when(|e: &anyhow::Error| e.to_string() == "retryable");
    let result = loop {
        m.start();
        error_times += 1;
        let out = Err::<(), anyhow::Error>(anyhow::Error::msg("retryable"));
        match m.on_op_complete(out) {
            Action::Finish(r) => break r,
            Action::StartTimer(_d) => m.on_timer_fired(),
        }
    };
    assert!(result.is_err());
    assert_eq!("retryable", result.unwrap_err().to_string());
    assert_eq!(error_times, 4);
}

#[test]
fn abandoned_while_sleeping_invokes_nothing_further() {
    let notifies = Cell::new(0usize);
    let mut calls = 0usize;
    let mut m = Retry::new(ExponentialBuilder::default().build()).notify(
        |_e: &String, _d: Duration| {
            notifies.set(notifies.get() + 1);
        },
    );

    m.start();
    calls += 1;
    let action = m.on_op_complete(Err::<(), String>("flaky".to_string()));
    assert!(matches!(action, Action::StartTimer(_)));
    assert_eq!(m.state(), RetryState::Sleeping);
    assert_eq!(notifies.get(), 1);

    // the caller abandons the run while it waits on its backoff timer:
    // the machine holds no pending work of its own, so dropping it is the
    // end of the story — the operation is never invoked again and the
    // hook never fires again
    drop(m);
    assert_eq!(calls, 1);
    assert_eq!(notifies.get(), 1);
}

#[test]
fn suspending_run_follows_the_state_table() {
    let mut m: Retry<_, _, _> = Retry::new(
        ExponentialBuilder::default().with_max_times(1).build(),
    );
    assert_eq!(m.state(), RetryState::Idle);
    m.start();
    assert_eq!(m.state(), RetryState::Polling);
    let action = m.on_op_complete(Err::<u32, String>("once".to_string()));
    assert!(matches!(action, Action::StartTimer(d) if d == Duration::from_secs(1)));
    assert_eq!(m.state(), RetryState::Sleeping);
    m.on_timer_fired();
    assert_eq!(m.state(), RetryState::Idle);
    m.start();
    let action = m.on_op_complete(Ok::<u32, String>(7));
    match action {
        Action::Finish(Ok(v)) => assert_eq!(v, 7),
        _ => panic!("expected the run to finish with the success"),
    }
    assert_eq!(m.state(), RetryState::Terminated);
    assert!(m.is_terminated());
}
