use vstd::prelude::*;

pub mod backoff;
pub mod blocking_retry;
pub mod constant;
pub mod delay;
pub mod duration;
pub mod exponential;
pub mod hooks;
pub mod opresult;
pub mod padding;
pub mod square;
pub mod suspend;

use crate::backoff::{Backoff, Sleeper};
use crate::duration::{spec_saturating_add, Duration};
use crate::exponential::ExponentialBackoff;
use crate::opresult::OperationResult;

verus! {

/// The terminal failure of a retry run: the last error observed, the wait
/// time summed over all consumed backoff delays, and the number of
/// attempts made (the initial call counts as the first).
#[derive(Debug, PartialEq, Eq)]
pub struct Error<E> {
    pub error: E,
    pub total_delay: Duration,
    pub tries: u64,
}

/// The trace relation of one indexed retry run. `outs` are the successive
/// outcomes of the operation `op` (each one its contract admits for the
/// attempt number it was invoked with, counted from one), `waits` the
/// backoff delays consumed after the retried failures, and `res` what the
/// run hands back: the first success, or the last error together with the
/// summed waits and the attempt count. A fatal outcome ends the run at
/// once; a retryable one ends it only when the backoff sequence is spent,
/// or when the attempt counter has reached its largest value (so a run
/// makes fewer than 2^64 attempts; no physical run comes near that bound).
pub open spec fn retry_run<B: Backoff, O: Fn(u64) -> OperationResult<R, E>, R, E>(
    op: O,
    b: B,
    tries: u64,
    total: nat,
    outs: Seq<OperationResult<R, E>>,
    waits: Seq<nat>,
    res: Result<R, Error<E>>,
) -> bool
    decreases outs.len(),
{
    &&& outs.len() > 0
    &&& call_ensures(op, (tries,), outs.first())
    &&& match outs.first() {
        OperationResult::Success(v) => outs.len() == 1 && waits.len() == 0 && res == Result::<
            R,
            Error<E>,
        >::Ok(v),
        OperationResult::Fatal(e) => outs.len() == 1 && waits.len() == 0 && (res matches Result::Err(err)
            && err.error == e
            && err.total_delay@ == total
            && err.tries == tries),
        OperationResult::Retry(e) => {
            if tries == u64::MAX || b.exhausted() {
                outs.len() == 1 && waits.len() == 0 && (res matches Result::Err(err)
                    && err.error == e
                    && err.total_delay@ == total
                    && err.tries == tries)
            } else {
                &&& waits.len() > 0
                &&& b.may_emit(waits.first())
                &&& retry_run(
                    op,
                    b.advanced(),
                    (tries + 1) as u64,
                    spec_saturating_add(total, waits.first()),
                    outs.drop_first(),
                    waits.drop_first(),
                    res,
                )
            }
        },
    }
}

/// The trace relation of one unindexed retry run: as `retry_run`, for an
/// operation that takes no argument.
pub open spec fn retry_run0<B: Backoff, O: Fn() -> OperationResult<R, E>, R, E>(
    op: O,
    b: B,
    tries: u64,
    total: nat,
    outs: Seq<OperationResult<R, E>>,
    waits: Seq<nat>,
    res: Result<R, Error<E>>,
) -> bool
    decreases outs.len(),
{
    &&& outs.len() > 0
    &&& call_ensures(op, (), outs.first())
    &&& match outs.first() {
        OperationResult::Success(v) => outs.len() == 1 && waits.len() == 0 && res == Result::<
            R,
            Error<E>,
        >::Ok(v),
        OperationResult::Fatal(e) => outs.len() == 1 && waits.len() == 0 && (res matches Result::Err(err)
            && err.error == e
            && err.total_delay@ == total
            && err.tries == tries),
        OperationResult::Retry(e) => {
            if tries == u64::MAX || b.exhausted() {
                outs.len() == 1 && waits.len() == 0 && (res matches Result::Err(err)
                    && err.error == e
                    && err.total_delay@ == total
                    && err.tries == tries)
            } else {
                &&& waits.len() > 0
                &&& b.may_emit(waits.first())
                &&& retry_run0(
                    op,
                    b.advanced(),
                    (tries + 1) as u64,
                    spec_saturating_add(total, waits.first()),
                    outs.drop_first(),
                    waits.drop_first(),
                    res,
                )
            }
        },
    }
}

/// Unfolds one step of the indexed trace relation, so that a caller of
/// `retry_with_index` can reason from its contract about what the run
/// did: which outcome came first, and how the run went on from it.
pub proof fn lemma_retry_run_step<B: Backoff, O: Fn(u64) -> OperationResult<R, E>, R, E>(
    op: O,
    b: B,
    tries: u64,
    total: nat,
    outs: Seq<OperationResult<R, E>>,
    waits: Seq<nat>,
    res: Result<R, Error<E>>,
)
    requires
        retry_run(op, b, tries, total, outs, waits, res),
    ensures
        outs.len() > 0,
        call_ensures(op, (tries,), outs.first()),
        match outs.first() {
            OperationResult::Success(v) => outs.len() == 1 && waits.len() == 0 && res == Result::<
                R,
                Error<E>,
            >::Ok(v),
            OperationResult::Fatal(e) => outs.len() == 1 && waits.len() == 0 && (res matches Result::Err(err)
                && err.error == e
                && err.total_delay@ == total
                && err.tries == tries),
            OperationResult::Retry(e) => {
                if tries == u64::MAX || b.exhausted() {
                    outs.len() == 1 && waits.len() == 0 && (res matches Result::Err(err)
                        && err.error == e
                        && err.total_delay@ == total
                        && err.tries == tries)
                } else {
                    &&& waits.len() > 0
                    &&& b.may_emit(waits.first())
                    &&& retry_run(
                        op,
                        b.advanced(),
                        (tries + 1) as u64,
                        spec_saturating_add(total, waits.first()),
                        outs.drop_first(),
                        waits.drop_first(),
                        res,
                    )
                }
            },
        },
{
}

/// Unfolds one step of the unindexed trace relation, as
/// `lemma_retry_run_step` does for the indexed one.
pub proof fn lemma_retry_run0_step<B: Backoff, O: Fn() -> OperationResult<R, E>, R, E>(
    op: O,
    b: B,
    tries: u64,
    total: nat,
    outs: Seq<OperationResult<R, E>>,
    waits: Seq<nat>,
    res: Result<R, Error<E>>,
)
    requires
        retry_run0(op, b, tries, total, outs, waits, res),
    ensures
        outs.len() > 0,
        call_ensures(op, (), outs.first()),
        match outs.first() {
            OperationResult::Success(v) => outs.len() == 1 && waits.len() == 0 && res == Result::<
                R,
                Error<E>,
            >::Ok(v),
            OperationResult::Fatal(e) => outs.len() == 1 && waits.len() == 0 && (res matches Result::Err(err)
                && err.error == e
                && err.total_delay@ == total
                && err.tries == tries),
            OperationResult::Retry(e) => {
                if tries == u64::MAX || b.exhausted() {
                    outs.len() == 1 && waits.len() == 0 && (res matches Result::Err(err)
                        && err.error == e
                        && err.total_delay@ == total
                        && err.tries == tries)
                } else {
                    &&& waits.len() > 0
                    &&& b.may_emit(waits.first())
                    &&& retry_run0(
                        op,
                        b.advanced(),
                        (tries + 1) as u64,
                        spec_saturating_add(total, waits.first()),
                        outs.drop_first(),
                        waits.drop_first(),
                        res,
                    )
                }
            },
        },
{
}

/// A trace of an indexed operation is a trace of an unindexed one whose
/// contract admits, whatever the attempt number, everything the indexed
/// contract admits.
proof fn lemma_retry_run_unindex<
    B: Backoff,
    O1: Fn(u64) -> OperationResult<R, E>,
    O2: Fn() -> OperationResult<R, E>,
    R,
    E,
>(
    o1: O1,
    o2: O2,
    b: B,
    tries: u64,
    total: nat,
    outs: Seq<OperationResult<R, E>>,
    waits: Seq<nat>,
    res: Result<R, Error<E>>,
)
    requires
        retry_run(o1, b, tries, total, outs, waits, res),
        forall|i: u64, out: OperationResult<R, E>| #[trigger] call_ensures(o1, (i,), out)
            ==> call_ensures(o2, (), out),
    ensures
        retry_run0(o2, b, tries, total, outs, waits, res),
    decreases outs.len(),
{
    match outs.first() {
        OperationResult::Retry(e) => {
            if tries != u64::MAX && !b.exhausted() {
                lemma_retry_run_unindex(
                    o1,
                    o2,
                    b.advanced(),
                    (tries + 1) as u64,
                    spec_saturating_add(total, waits.first()),
                    outs.drop_first(),
                    waits.drop_first(),
                    res,
                );
            }
        },
        _ => {},
    }
}

proof fn lemma_retry_run_prepend<B: Backoff, O: Fn(u64) -> OperationResult<R, E>, R, E>(
    op: O,
    b: B,
    tries: u64,
    total: nat,
    e: E,
    w: nat,
    outs: Seq<OperationResult<R, E>>,
    waits: Seq<nat>,
    res: Result<R, Error<E>>,
)
    requires
        call_ensures(op, (tries,), OperationResult::<R, E>::Retry(e)),
        tries < u64::MAX,
        !b.exhausted(),
        b.may_emit(w),
        retry_run(
            op,
            b.advanced(),
            (tries + 1) as u64,
            spec_saturating_add(total, w),
            outs,
            waits,
            res,
        ),
    ensures
        retry_run(
            op,
            b,
            tries,
            total,
            seq![OperationResult::Retry(e)].add(outs),
            seq![w].add(waits),
            res,
        ),
{
    let outs2 = seq![OperationResult::<R, E>::Retry(e)].add(outs);
    let waits2 = seq![w].add(waits);
    assert(outs2.first() == OperationResult::<R, E>::Retry(e));
    assert(outs2.drop_first() =~= outs);
    assert(waits2.first() == w);
    assert(waits2.drop_first() =~= waits);
}

/// Law: an operation that fails retryably at every attempt, run against
/// an exponential policy whose number of waits is bounded, consumes every
/// remaining wait and is invoked exactly once more than that — the
/// attempt count the run reports says so.
pub proof fn lemma_all_retryable_exhausts_policy<O: Fn(u64) -> OperationResult<R, E>, R, E>(
    op: O,
    b: ExponentialBackoff,
    m: usize,
    tries: u64,
    total: nat,
    outs: Seq<OperationResult<R, E>>,
    waits: Seq<nat>,
    res: Result<R, Error<E>>,
)
    requires
        retry_run(op, b, tries, total, outs, waits, res),
        forall|k: int| 0 <= k < outs.len() ==> outs[k] is Retry,
        b.max_times == Some(m),
        b.attempts <= m,
        tries + (m - b.attempts) < u64::MAX,
    ensures
        outs.len() == (m - b.attempts) + 1,
        waits.len() == m - b.attempts,
        res matches Result::Err(err) && err.tries == tries + (m - b.attempts),
    decreases outs.len(),
{
    assert(outs[0] is Retry);
    if b.attempts < m {
        assert(!b.exhausted());
        let outs2 = outs.drop_first();
        assert(forall|k: int| 0 <= k < outs2.len() ==> outs2[k] == outs[k + 1]);
        lemma_all_retryable_exhausts_policy(
            op,
            b.advanced(),
            m,
            (tries + 1) as u64,
            spec_saturating_add(total, waits.first()),
            outs2,
            waits.drop_first(),
            res,
        );
    }
}

/// Drive `operation` to completion, telling it the number of the attempt
/// it is (counted from one): invoke it, retry each `Retry` outcome after
/// parking the thread through `sleeper` for the wait the backoff sequence
/// chose, and stop on the first `Success`, on a `Fatal` outcome, or when
/// the sequence is spent. The result is fully explained by a trace of
/// operation outcomes and backoff emissions.
pub fn retry_with_index<B, O, R, E, S>(backoff: B, operation: O, sleeper: &mut S) -> (r: Result<
    R,
    Error<E>,
>) where B: Backoff, O: Fn(u64) -> OperationResult<R, E>, S: Sleeper
    requires
        backoff.wf(),
        forall|i: u64| call_requires(operation, (i,)),
    ensures
        exists|outs: Seq<OperationResult<R, E>>, waits: Seq<nat>|
            retry_run(operation, backoff, 1u64, 0 as nat, outs, waits, r),
{
    let mut b = backoff;
    let mut current_try: u64 = 1;
    let mut total_delay = Duration::default();
    loop
        invariant
            b.wf(),
            forall|i: u64| call_requires(operation, (i,)),
            forall|outs: Seq<OperationResult<R, E>>, waits: Seq<nat>, res: Result<R, Error<E>>|
                retry_run(operation, b, current_try, total_delay@, outs, waits, res)
                    ==> exists|outs2: Seq<OperationResult<R, E>>, waits2: Seq<nat>|
                    retry_run(operation, backoff, 1u64, 0 as nat, outs2, waits2, res),
        decreases u64::MAX - current_try,
    {
        let out = operation(current_try);
        let ghost out0 = out;
        match out {
            OperationResult::Success(v) => {
                proof {
                    let outs = seq![out0];
                    let waits = Seq::<nat>::empty();
                    assert(retry_run(
                        operation,
                        b,
                        current_try,
                        total_delay@,
                        outs,
                        waits,
                        Result::<R, Error<E>>::Ok(v),
                    ));
                }
                return Ok(v);
            },
            OperationResult::Fatal(error) => {
                let err = Error { error, total_delay, tries: current_try };
                proof {
                    let outs = seq![out0];
                    let waits = Seq::<nat>::empty();
                    assert(retry_run(
                        operation,
                        b,
                        current_try,
                        total_delay@,
                        outs,
                        waits,
                        Result::<R, Error<E>>::Err(err),
                    ));
                }
                return Err(err);
            },
            OperationResult::Retry(error) => {
                if current_try == u64::MAX {
                    let err = Error { error, total_delay, tries: current_try };
                    proof {
                        let outs = seq![out0];
                        let waits = Seq::<nat>::empty();
                        assert(retry_run(
                            operation,
                            b,
                            current_try,
                            total_delay@,
                            outs,
                            waits,
                            Result::<R, Error<E>>::Err(err),
                        ));
                    }
                    return Err(err);
                }
                let ghost b_before = b;
                match b.next() {
                    None => {
                        let err = Error { error, total_delay, tries: current_try };
                        proof {
                            let outs = seq![out0];
                            let waits = Seq::<nat>::empty();
                            assert(retry_run(
                                operation,
                                b,
                                current_try,
                                total_delay@,
                                outs,
                                waits,
                                Result::<R, Error<E>>::Err(err),
                            ));
                        }
                        return Err(err);
                    },
                    Some(delay) => {
                        sleeper.sleep(delay);
                        let ghost try_before = current_try;
                        let ghost total_before = total_delay;
                        current_try = current_try + 1;
                        total_delay = total_delay.saturating_add(delay);
                        proof {
                            assert forall|
                                outs: Seq<OperationResult<R, E>>,
                                waits: Seq<nat>,
                                res: Result<R, Error<E>>,
                            |
                                retry_run(
                                    operation,
                                    b,
                                    current_try,
                                    total_delay@,
                                    outs,
                                    waits,
                                    res,
                                ) implies exists|
                                outs2: Seq<OperationResult<R, E>>,
                                waits2: Seq<nat>,
                            |
                                retry_run(
                                    operation,
                                    backoff,
                                    1u64,
                                    0 as nat,
                                    outs2,
                                    waits2,
                                    res,
                                ) by {
                                lemma_retry_run_prepend(
                                    operation,
                                    b_before,
                                    try_before,
                                    total_before@,
                                    out0->Retry_0,
                                    delay@,
                                    outs,
                                    waits,
                                    res,
                                );
                            }
                        }
                    },
                }
            },
        }
    }
}

/// Drive `operation` to completion as `retry_with_index` does, for an
/// operation that does not care which attempt it is.
pub fn retry<B, O, R, E, S>(backoff: B, operation: O, sleeper: &mut S) -> (r: Result<
    R,
    Error<E>,
>) where B: Backoff, O: Fn() -> OperationResult<R, E>, S: Sleeper
    requires
        backoff.wf(),
        call_requires(operation, ()),
    ensures
        exists|outs: Seq<OperationResult<R, E>>, waits: Seq<nat>|
            retry_run0(operation, backoff, 1u64, 0 as nat, outs, waits, r),
{
    let ghost b0 = backoff;
    let op_ref = &operation;
    let wrapped = |i: u64| -> (out: OperationResult<R, E>)
        requires
            call_requires(op_ref, ()),
        ensures
            call_ensures(op_ref, (), out),
        { op_ref() };
    let r = retry_with_index(backoff, wrapped, sleeper);
    proof {
        let (outs, waits): (Seq<OperationResult<R, E>>, Seq<nat>) = choose|
            outs: Seq<OperationResult<R, E>>,
            waits: Seq<nat>,
        | retry_run(wrapped, b0, 1u64, 0 as nat, outs, waits, r);
        lemma_retry_run_unindex(wrapped, operation, b0, 1u64, 0 as nat, outs, waits, r);
    }
    r
}

} // verus!
