use vstd::prelude::*;

use crate::backoff::{Backoff, BackoffBuilder, Sleeper};
use crate::hooks::{NotifyFn, NotifyHook, NotifyNothing, PredicateFn, RetryAll, RetryPredicate};

verus! {

/// The trace relation of one blocking retry run: `outs` are the successive
/// results the operation `f` returned (each a result the operation's own
/// contract admits), `waits` are the backoff delays consumed after the
/// retried failures, and `res` is what the run hands back. The run returns
/// the first success as it stands; a failure the predicate rejects, or one
/// met after the backoff sequence is spent, is handed back unchanged.
/// `fuel` bounds the number of waits the run may still consume: the engine
/// starts a run with the largest 64-bit budget, so in practice only the
/// predicate and the policy end a run.
pub open spec fn blocking_run<B: Backoff, T, E, F: Fn() -> Result<T, E>, P: RetryPredicate<E>>(
    f: F,
    pred: P,
    b: B,
    fuel: nat,
    outs: Seq<Result<T, E>>,
    waits: Seq<nat>,
    res: Result<T, E>,
) -> bool
    decreases outs.len(),
{
    &&& outs.len() > 0
    &&& call_ensures(f, (), outs.first())
    &&& match outs.first() {
        Ok(v) => outs.len() == 1 && waits.len() == 0 && res == Result::<T, E>::Ok(v),
        Err(e) => {
            // the predicate answered either way; a rejected failure is
            // fatal and consumes no backoff slot
            ||| (pred.allows(&e, false) && outs.len() == 1 && waits.len() == 0 && res
                == Result::<T, E>::Err(e))
            ||| (pred.allows(&e, true) && if fuel == 0 || b.exhausted() {
                outs.len() == 1 && waits.len() == 0 && res == Result::<T, E>::Err(e)
            } else {
                &&& waits.len() > 0
                &&& b.may_emit(waits.first())
                &&& blocking_run(
                    f,
                    pred,
                    b.advanced(),
                    (fuel - 1) as nat,
                    outs.drop_first(),
                    waits.drop_first(),
                    res,
                )
            })
        },
    }
}

proof fn lemma_blocking_run_prepend<B: Backoff, T, E, F: Fn() -> Result<T, E>, P: RetryPredicate<E>>(
    f: F,
    pred: P,
    b: B,
    e: E,
    w: nat,
    fuel: nat,
    outs: Seq<Result<T, E>>,
    waits: Seq<nat>,
    res: Result<T, E>,
)
    requires
        call_ensures(f, (), Result::<T, E>::Err(e)),
        pred.allows(&e, true),
        fuel > 0,
        !b.exhausted(),
        b.may_emit(w),
        blocking_run(f, pred, b.advanced(), (fuel - 1) as nat, outs, waits, res),
    ensures
        blocking_run(
            f,
            pred,
            b,
            fuel,
            seq![Result::<T, E>::Err(e)].add(outs),
            seq![w].add(waits),
            res,
        ),
{
    let outs2 = seq![Result::<T, E>::Err(e)].add(outs);
    let waits2 = seq![w].add(waits);
    assert(outs2.first() == Result::<T, E>::Err(e));
    assert(outs2.drop_first() =~= outs);
    assert(waits2.first() == w);
    assert(waits2.drop_first() =~= waits);
    assert(pred.allows(&e, true) && !b.exhausted() && b.may_emit(waits2.first())
        && blocking_run(
        f,
        pred,
        b.advanced(),
        (fuel - 1) as nat,
        outs2.drop_first(),
        waits2.drop_first(),
        res,
    ));
}

/// Unfolds one step of the trace relation, so that a caller of `call` can
/// reason from its contract about what the run did: which outcome came
/// first, and how the run went on from it.
pub proof fn lemma_blocking_run_step<
    B: Backoff,
    T,
    E,
    F: Fn() -> Result<T, E>,
    P: RetryPredicate<E>,
>(
    f: F,
    pred: P,
    b: B,
    fuel: nat,
    outs: Seq<Result<T, E>>,
    waits: Seq<nat>,
    res: Result<T, E>,
)
    requires
        blocking_run(f, pred, b, fuel, outs, waits, res),
    ensures
        outs.len() > 0,
        call_ensures(f, (), outs.first()),
        match outs.first() {
            Ok(v) => outs.len() == 1 && waits.len() == 0 && res == Result::<T, E>::Ok(v),
            Err(e) => {
                ||| (pred.allows(&e, false) && outs.len() == 1 && waits.len() == 0 && res
                    == Result::<T, E>::Err(e))
                ||| (pred.allows(&e, true) && if fuel == 0 || b.exhausted() {
                    outs.len() == 1 && waits.len() == 0 && res == Result::<T, E>::Err(e)
                } else {
                    &&& waits.len() > 0
                    &&& b.may_emit(waits.first())
                    &&& blocking_run(
                        f,
                        pred,
                        b.advanced(),
                        (fuel - 1) as nat,
                        outs.drop_first(),
                        waits.drop_first(),
                        res,
                    )
                })
            },
        },
{
}

/// Anything callable and fallible can be retried against a backoff
/// configuration.
pub trait BlockingRetryable<BB: BackoffBuilder, T, E>: Sized {
    fn retry(self, builder: &BB) -> (r: BlockingRetry<BB::Backoff, Self, RetryAll, NotifyNothing>)
        requires
            builder.wf(),
        ensures
            r.spec_backoff() == builder.build_spec(),
            r.spec_f() == self,
            r.spec_retryable() == RetryAll,
            r.spec_notify() == NotifyNothing,
    ;
}

impl<BB: BackoffBuilder, T, E, F: Fn() -> Result<T, E>> BlockingRetryable<BB, T, E> for F {
    fn retry(self, builder: &BB) -> (r: BlockingRetry<BB::Backoff, F, RetryAll, NotifyNothing>) {
        BlockingRetry::new(self, builder.build())
    }
}

/// A fully configured blocking retry run: the operation, its backoff
/// sequence, the retryability predicate and the notify hook.
pub struct BlockingRetry<B, F, P, N> {
    backoff: B,
    retryable: P,
    notify: N,
    f: F,
}

impl<B, F, P, N> BlockingRetry<B, F, P, N> {
    pub closed spec fn spec_backoff(&self) -> B {
        self.backoff
    }

    pub closed spec fn spec_retryable(&self) -> P {
        self.retryable
    }

    pub closed spec fn spec_notify(&self) -> N {
        self.notify
    }

    pub closed spec fn spec_f(&self) -> F {
        self.f
    }

    /// Replace the retryability predicate by a capturing closure.
    pub fn when<P2>(self, retryable: P2) -> (r: BlockingRetry<B, F, PredicateFn<P2>, N>)
        ensures
            r.spec_backoff() == self.spec_backoff(),
            r.spec_f() == self.spec_f(),
            r.spec_notify() == self.spec_notify(),
            r.spec_retryable() == PredicateFn(retryable),
    {
        BlockingRetry {
            backoff: self.backoff,
            retryable: PredicateFn(retryable),
            notify: self.notify,
            f: self.f,
        }
    }

    /// Replace the notify hook by a capturing closure.
    pub fn notify<N2>(self, notify: N2) -> (r: BlockingRetry<B, F, P, NotifyFn<N2>>)
        ensures
            r.spec_backoff() == self.spec_backoff(),
            r.spec_f() == self.spec_f(),
            r.spec_retryable() == self.spec_retryable(),
            r.spec_notify() == NotifyFn(notify),
    {
        BlockingRetry {
            backoff: self.backoff,
            retryable: self.retryable,
            notify: NotifyFn(notify),
            f: self.f,
        }
    }
}

impl<B: Backoff, F> BlockingRetry<B, F, RetryAll, NotifyNothing> {
    fn new(f: F, backoff: B) -> (r: Self)
        ensures
            r.spec_backoff() == backoff,
            r.spec_f() == f,
            r.spec_retryable() == RetryAll,
            r.spec_notify() == NotifyNothing,
    {
        BlockingRetry { backoff, retryable: RetryAll, notify: NotifyNothing, f }
    }
}

impl<B: Backoff, F, P, N> BlockingRetry<B, F, P, N> {
    /// Drive the operation to completion on the calling thread: invoke it,
    /// classify each failure through the predicate, and between retried
    /// attempts tell the hook and park the thread through `sleeper` for the
    /// wait the backoff sequence chose. The result is fully explained by a
    /// trace of operation results, predicate answers and backoff emissions.
    pub fn call<T, E, S: Sleeper>(self, sleeper: &mut S) -> (r: Result<T, E>) where
        F: Fn() -> Result<T, E>,
        P: RetryPredicate<E>,
        N: NotifyHook<E>,

        requires
            self.spec_backoff().wf(),
            call_requires(self.spec_f(), ()),
            forall|e: &E| self.spec_retryable().req(e),
            forall|e: &E, d: crate::duration::Duration| self.spec_notify().req(e, d),
        ensures
            exists|outs: Seq<Result<T, E>>, waits: Seq<nat>|
                blocking_run(
                    self.spec_f(),
                    self.spec_retryable(),
                    self.spec_backoff(),
                    u64::MAX as nat,
                    outs,
                    waits,
                    r,
                ),
    {
        let BlockingRetry { mut backoff, retryable, notify, f } = self;
        let ghost b0 = backoff;
        let mut fuel: u64 = u64::MAX;
        loop
            invariant
                backoff.wf(),
                call_requires(f, ()),
                forall|e: &E| self.spec_retryable().req(e),
                forall|e: &E, d: crate::duration::Duration| self.spec_notify().req(e, d),
                notify == self.spec_notify(),
                f == self.spec_f(),
                retryable == self.spec_retryable(),
                b0 == self.spec_backoff(),
                forall|outs: Seq<Result<T, E>>, waits: Seq<nat>, res: Result<T, E>|
                    blocking_run(f, retryable, backoff, fuel as nat, outs, waits, res) ==> exists|
                        outs2: Seq<Result<T, E>>,
                        waits2: Seq<nat>,
                    |
                        blocking_run(f, retryable, b0, u64::MAX as nat, outs2, waits2, res),
            decreases fuel,
        {
            let out = f();
            match out {
                Ok(v) => {
                    proof {
                        let outs = seq![Result::<T, E>::Ok(v)];
                        let waits = Seq::<nat>::empty();
                        assert(blocking_run(
                            f,
                            retryable,
                            backoff,
                            fuel as nat,
                            outs,
                            waits,
                            Result::<T, E>::Ok(v),
                        ));
                    }
                    return Ok(v);
                },
                Err(err) => {
                    let keep = retryable.check(&err);
                    if !keep {
                        proof {
                            let outs = seq![Result::<T, E>::Err(err)];
                            let waits = Seq::<nat>::empty();
                            assert(retryable.allows(&err, false));
                            assert(blocking_run(
                                f,
                                retryable,
                                backoff,
                                fuel as nat,
                                outs,
                                waits,
                                Result::<T, E>::Err(err),
                            ));
                        }
                        return Err(err);
                    }
                    if fuel == 0 {
                        proof {
                            let outs = seq![Result::<T, E>::Err(err)];
                            let waits = Seq::<nat>::empty();
                            assert(retryable.allows(&err, true));
                            assert(blocking_run(
                                f,
                                retryable,
                                backoff,
                                fuel as nat,
                                outs,
                                waits,
                                Result::<T, E>::Err(err),
                            ));
                        }
                        return Err(err);
                    }
                    let ghost b_before = backoff;
                    match backoff.next() {
                        None => {
                            proof {
                                let outs = seq![Result::<T, E>::Err(err)];
                                let waits = Seq::<nat>::empty();
                                assert(retryable.allows(&err, true));
                                assert(b_before.exhausted());
                                assert(blocking_run(
                                    f,
                                    retryable,
                                    backoff,
                                    fuel as nat,
                                    outs,
                                    waits,
                                    Result::<T, E>::Err(err),
                                ));
                            }
                            return Err(err);
                        },
                        Some(dur) => {
                            notify.notify(&err, dur);
                            sleeper.sleep(dur);
                            let ghost fuel_before = fuel;
                            fuel = fuel - 1;
                            proof {
                                assert forall|
                                    outs: Seq<Result<T, E>>,
                                    waits: Seq<nat>,
                                    res: Result<T, E>,
                                |
                                    blocking_run(
                                        f,
                                        retryable,
                                        backoff,
                                        fuel as nat,
                                        outs,
                                        waits,
                                        res,
                                    ) implies exists|outs2: Seq<Result<T, E>>, waits2: Seq<nat>|
                                    blocking_run(
                                        f,
                                        retryable,
                                        b0,
                                        u64::MAX as nat,
                                        outs2,
                                        waits2,
                                        res,
                                    ) by {
                                    lemma_blocking_run_prepend(
                                        f,
                                        retryable,
                                        b_before,
                                        err,
                                        dur@,
                                        fuel_before as nat,
                                        outs,
                                        waits,
                                        res,
                                    );
                                }
                            }
                        },
                    }
                },
            }
        }
    }
}

} // verus!
