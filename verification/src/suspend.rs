use vstd::prelude::*;

use crate::backoff::Backoff;
use crate::duration::Duration;
use crate::hooks::{NotifyFn, NotifyHook, NotifyNothing, PredicateFn, RetryAll, RetryPredicate};

verus! {

/// Where a suspending retry run stands between two resumptions.
#[derive(Clone, Copy, Debug, PartialEq, Eq, Structural)]
pub enum RetryState {
    /// No work is in flight; the next step invokes the operation.
    Idle,
    /// The run awaits the completion of one invocation of the operation.
    Polling,
    /// The run awaits the backoff timer.
    Sleeping,
    /// The run is finished; no further transitions.
    Terminated,
}

/// What the scheduler embedding the run must do next: begin a timer for
/// the given wait, or hand the final result to the caller. (After `start`
/// the next step is always to invoke the operation, and after the timer
/// has fired it is to report that through `on_timer_fired`.)
pub enum Action<T, E> {
    StartTimer(Duration),
    Finish(Result<T, E>),
}

/// The decision core of the suspending retry executor. The engine itself
/// performs no waiting and holds no in-flight computation: the embedder
/// owns the pending operation and the pending timer, reports their
/// completions here, and performs the returned actions. Abandoning the run
/// at a suspension point therefore cannot invoke the operation or the
/// notify hook again: both happen only inside these transitions.
pub struct Retry<B, P, N> {
    backoff: B,
    retryable: P,
    notify: N,
    state: RetryState,
}

impl<B: Backoff> Retry<B, RetryAll, NotifyNothing> {
    pub fn new(backoff: B) -> (r: Self)
        ensures
            r.spec_backoff() == backoff,
            r.spec_retryable() == RetryAll,
            r.spec_notify() == NotifyNothing,
            r.spec_state() == RetryState::Idle,
    {
        Retry { backoff, retryable: RetryAll, notify: NotifyNothing, state: RetryState::Idle }
    }
}

impl<B, P, N> Retry<B, P, N> {
    pub closed spec fn spec_backoff(&self) -> B {
        self.backoff
    }

    pub closed spec fn spec_retryable(&self) -> P {
        self.retryable
    }

    pub closed spec fn spec_notify(&self) -> N {
        self.notify
    }

    pub closed spec fn spec_state(&self) -> RetryState {
        self.state
    }

    /// Replace the retryability predicate by a capturing closure.
    pub fn when<P2>(self, retryable: P2) -> (r: Retry<B, PredicateFn<P2>, N>)
        ensures
            r.spec_backoff() == self.spec_backoff(),
            r.spec_notify() == self.spec_notify(),
            r.spec_state() == self.spec_state(),
            r.spec_retryable() == PredicateFn(retryable),
    {
        Retry {
            backoff: self.backoff,
            retryable: PredicateFn(retryable),
            notify: self.notify,
            state: self.state,
        }
    }

    /// Replace the notify hook by a capturing closure.
    pub fn notify<N2>(self, notify: N2) -> (r: Retry<B, P, NotifyFn<N2>>)
        ensures
            r.spec_backoff() == self.spec_backoff(),
            r.spec_retryable() == self.spec_retryable(),
            r.spec_state() == self.spec_state(),
            r.spec_notify() == NotifyFn(notify),
    {
        Retry {
            backoff: self.backoff,
            retryable: self.retryable,
            notify: NotifyFn(notify),
            state: self.state,
        }
    }
}

impl<B: Backoff, P, N> Retry<B, P, N> {
    /// Begin the next attempt: the embedder must now invoke the operation
    /// and report its completion.
    pub fn start(&mut self)
        requires
            old(self).spec_state() == RetryState::Idle,
        ensures
            final(self).spec_state() == RetryState::Polling,
            final(self).spec_backoff() == old(self).spec_backoff(),
            final(self).spec_retryable() == old(self).spec_retryable(),
            final(self).spec_notify() == old(self).spec_notify(),
    {
        self.state = RetryState::Polling;
    }

    /// The operation completed: hand back its success, end the run on a
    /// failure the predicate rejects or one met after the sequence is
    /// spent, and otherwise tell the hook and start the backoff timer.
    pub fn on_op_complete<T, E>(&mut self, outcome: Result<T, E>) -> (a: Action<T, E>) where
        P: RetryPredicate<E>,
        N: NotifyHook<E>,

        requires
            old(self).spec_state() == RetryState::Polling,
            old(self).spec_backoff().wf(),
            forall|e: &E| old(self).spec_retryable().req(e),
            forall|e: &E, d: Duration| old(self).spec_notify().req(e, d),
        ensures
            final(self).spec_retryable() == old(self).spec_retryable(),
            final(self).spec_notify() == old(self).spec_notify(),
            final(self).spec_backoff().wf(),
            match outcome {
                Ok(v) => {
                    &&& a == Action::<T, E>::Finish(Ok(v))
                    &&& final(self).spec_state() == RetryState::Terminated
                    &&& final(self).spec_backoff() == old(self).spec_backoff()
                },
                Err(e) => {
                    ||| {
                        &&& old(self).spec_retryable().allows(&e, false)
                        &&& a == Action::<T, E>::Finish(Err(e))
                        &&& final(self).spec_state() == RetryState::Terminated
                        &&& final(self).spec_backoff() == old(self).spec_backoff()
                    }
                    ||| {
                        &&& old(self).spec_retryable().allows(&e, true)
                        &&& if old(self).spec_backoff().exhausted() {
                            &&& a == Action::<T, E>::Finish(Err(e))
                            &&& final(self).spec_state() == RetryState::Terminated
                            &&& final(self).spec_backoff() == old(self).spec_backoff()
                        } else {
                            &&& a matches Action::StartTimer(d) && old(self).spec_backoff().may_emit(
                                d@,
                            )
                            &&& final(self).spec_state() == RetryState::Sleeping
                            &&& final(self).spec_backoff() == old(self).spec_backoff().advanced()
                        }
                    }
                },
            },
    {
        match outcome {
            Ok(v) => {
                self.state = RetryState::Terminated;
                Action::Finish(Ok(v))
            },
            Err(err) => {
                proof {
                    assert(old(self).spec_retryable().req(&err));
                }
                let keep = self.retryable.check(&err);
                if !keep {
                    self.state = RetryState::Terminated;
                    return Action::Finish(Err(err));
                }
                match self.backoff.next() {
                    None => {
                        self.state = RetryState::Terminated;
                        Action::Finish(Err(err))
                    },
                    Some(dur) => {
                        proof {
                            assert(old(self).spec_notify().req(&err, dur));
                        }
                        self.notify.notify(&err, dur);
                        self.state = RetryState::Sleeping;
                        Action::StartTimer(dur)
                    },
                }
            },
        }
    }

    /// The backoff timer fired: the run is idle again and the embedder may
    /// begin the next attempt.
    pub fn on_timer_fired(&mut self)
        requires
            old(self).spec_state() == RetryState::Sleeping,
        ensures
            final(self).spec_state() == RetryState::Idle,
            final(self).spec_backoff() == old(self).spec_backoff(),
            final(self).spec_retryable() == old(self).spec_retryable(),
            final(self).spec_notify() == old(self).spec_notify(),
    {
        self.state = RetryState::Idle;
    }

    /// Whether the run is finished.
    pub fn is_terminated(&self) -> (b: bool)
        ensures
            b == (self.spec_state() == RetryState::Terminated),
    {
        matches!(self.state, RetryState::Terminated)
    }

    /// Where the run stands.
    pub fn state(&self) -> (s: RetryState)
        ensures
            s == self.spec_state(),
    {
        self.state
    }
}

} // verus!
