use retry::duration::Duration;
use retry::hooks::{classify, PredicateFn, RetryAll};
use retry::opresult::OperationResult;
use retry::padding::{add_padding, PaddingDirection, Rect};
use retry::square::is_square;

#[test]
fn should_square() {
    assert_eq!(is_square(2), false);
    assert_eq!(is_square(4), true);
    assert_eq!(is_square(25), true);
    assert_eq!(is_square(26), false);
    assert_eq!(is_square(2600000000000), false);
}

#[test]
fn squares_at_the_edges() {
    assert_eq!(is_square(0), true);
    assert_eq!(is_square(1), true);
    assert_eq!(is_square(-4), false);
}

#[test]
fn operation_result_tags() {
    let ok = OperationResult::<u32, &str>::Success(5);
    let retrying = OperationResult::<u32, &str>::Retry("later");
    let fatal = OperationResult::<u32, &str>::Fatal("never");
    assert!(ok.is_ok() && !ok.is_retry() && !ok.is_err());
    assert!(!retrying.is_ok() && retrying.is_retry() && !retrying.is_err());
    assert!(!fatal.is_ok() && !fatal.is_retry() && fatal.is_err());
}

#[test]
fn plain_results_convert_to_retryable_outcomes() {
    let ok: OperationResult<u32, &str> = Ok(3).into();
    assert!(ok.is_ok());
    let err: OperationResult<u32, &str> = Err("transient").into();
    assert!(err.is_retry());
    assert!(OperationResult::from(Err::<u32, &str>("x")).is_retry());
}

#[test]
fn durations_convert_exactly() {
    assert_eq!(Duration::from_secs(2), Duration::from_millis(2000));
    assert_eq!(Duration::from_millis(1), Duration::from_nanos(1_000_000));
    assert_eq!(Duration::from_secs(1).as_nanos(), 1_000_000_000);
    assert!(Duration::from_millis(999).is_zero() == false);
    assert!(Duration::from_millis(0).is_zero());
}

#[test]
fn duration_addition_saturates() {
    let huge = Duration::from_nanos(u64::MAX);
    assert_eq!(huge.saturating_add(Duration::from_secs(1)), huge);
    assert_eq!(
        Duration::from_millis(1).saturating_add(Duration::from_millis(2)),
        Duration::from_millis(3)
    );
}

#[test]
fn padding_moves_each_edge_inward() {
    let base = Rect { x: 10, y: 20, width: 30, height: 40 };
    assert_eq!(
        add_padding(base, 3, PaddingDirection::Top),
        Rect { x: 10, y: 23, width: 30, height: 37 }
    );
    assert_eq!(
        add_padding(base, 3, PaddingDirection::Bottom),
        Rect { x: 10, y: 20, width: 30, height: 37 }
    );
    assert_eq!(
        add_padding(base, 3, PaddingDirection::Left),
        Rect { x: 13, y: 20, width: 27, height: 40 }
    );
    assert_eq!(
        add_padding(base, 3, PaddingDirection::Right),
        Rect { x: 10, y: 20, width: 27, height: 40 }
    );
    assert_eq!(
        add_padding(base, 3, PaddingDirection::All),
        Rect { x: 13, y: 23, width: 24, height: 34 }
    );
}

#[test]
fn padding_stops_at_zero_extent() {
    let thin = Rect { x: 0, y: 0, width: 4, height: 2 };
    let padded = add_padding(thin, 5, PaddingDirection::All);
    assert_eq!(padded, Rect { x: 5, y: 5, width: 0, height: 0 });
}

#[test]
fn classifier_combines_result_and_predicate() {
    assert!(classify(Ok::<u32, &str>(9), &RetryAll).is_ok());
    assert!(classify(Err::<u32, &str>("transient"), &RetryAll).is_retry());

    let only_timeouts = PredicateFn(|e: &&str| *e == "timeout");
    assert!(classify(Err::<u32, &str>("timeout"), &only_timeouts).is_retry());
    // a failure the predicate rejects is fatal: the run would stop at once
    assert!(classify(Err::<u32, &str>("denied"), &only_timeouts).is_err());
}
