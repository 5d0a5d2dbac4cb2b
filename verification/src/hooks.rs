use vstd::prelude::*;

use crate::duration::Duration;
use crate::opresult::OperationResult;

verus! {

/// A caller-supplied classification of errors: `check` answers whether an
/// error is worth retrying. `allows` is the specification-side relation
/// admitting every answer the predicate may give for an error.
pub trait RetryPredicate<E>: Sized {
    /// What the predicate demands of its argument before it can be asked.
    spec fn req(&self, e: &E) -> bool;

    /// The possible answers for a given error.
    spec fn allows(&self, e: &E, keep: bool) -> bool;

    /// Ask whether `e` is worth retrying.
    fn check(&self, e: &E) -> (keep: bool)
        requires
            self.req(e),
        ensures
            self.allows(e, keep),
    ;
}

/// The default classification: every error is worth retrying.
pub struct RetryAll;

impl<E> RetryPredicate<E> for RetryAll {
    open spec fn req(&self, e: &E) -> bool {
        true
    }

    open spec fn allows(&self, e: &E, keep: bool) -> bool {
        keep == true
    }

    fn check(&self, e: &E) -> (keep: bool) {
        true
    }
}

/// A retryability predicate given as a capturing closure.
pub struct PredicateFn<P>(pub P);

impl<E, P: Fn(&E) -> bool> RetryPredicate<E> for PredicateFn<P> {
    open spec fn req(&self, e: &E) -> bool {
        call_requires(self.0, (e,))
    }

    open spec fn allows(&self, e: &E, keep: bool) -> bool {
        call_ensures(self.0, (e,), keep)
    }

    fn check(&self, e: &E) -> (keep: bool) {
        (self.0)(e)
    }
}

/// An observability hook told, once per retryable failure and before the
/// wait, which error occurred and how long the coming wait is. It returns
/// nothing and changes no control flow.
pub trait NotifyHook<E>: Sized {
    /// What the hook demands of its arguments before it can be invoked.
    spec fn req(&self, e: &E, d: Duration) -> bool;

    /// Report one retryable failure and the wait chosen after it.
    fn notify(&self, e: &E, d: Duration)
        requires
            self.req(e, d),
    ;
}

/// The default hook: report to nobody.
pub struct NotifyNothing;

impl<E> NotifyHook<E> for NotifyNothing {
    open spec fn req(&self, e: &E, d: Duration) -> bool {
        true
    }

    fn notify(&self, e: &E, d: Duration) {
    }
}

/// An observability hook given as a capturing closure.
pub struct NotifyFn<N>(pub N);

impl<E, N: Fn(&E, Duration)> NotifyHook<E> for NotifyFn<N> {
    open spec fn req(&self, e: &E, d: Duration) -> bool {
        call_requires(self.0, (e, d))
    }

    fn notify(&self, e: &E, d: Duration) {
        (self.0)(e, d);
    }
}

/// The outcome classifier: combine one attempt's raw result with the
/// retryability predicate. A success stays a success; a failure the
/// predicate accepts becomes a retryable failure, one it rejects becomes
/// a fatal failure.
pub fn classify<T, E, P: RetryPredicate<E>>(result: Result<T, E>, pred: &P) -> (out:
    OperationResult<T, E>)
    requires
        forall|e: &E| pred.req(e),
    ensures
        match result {
            Ok(v) => out == OperationResult::<T, E>::Success(v),
            Err(e) => {
                ||| (pred.allows(&e, true) && out == OperationResult::<T, E>::Retry(e))
                ||| (pred.allows(&e, false) && out == OperationResult::<T, E>::Fatal(e))
            },
        },
{
    match result {
        Ok(v) => OperationResult::Success(v),
        Err(e) => {
            if pred.check(&e) {
                OperationResult::Retry(e)
            } else {
                OperationResult::Fatal(e)
            }
        },
    }
}

} // verus!
