use vstd::prelude::*;

use crate::duration::Duration;

verus! {

/// A single-use, stateful producer of wait durations: the executor asks it
/// for the next wait with `next`, and a `None` is the terminal "exhausted"
/// signal, never an error.
///
/// The specification side models each sequence as a deterministic cursor:
/// `exhausted` says whether `next` would return `None`, `advanced` is the
/// state after one emission, and `may_emit` admits every duration the next
/// emission may carry (more than one only where the policy adds a random
/// jitter; the stored state never depends on the jitter).
pub trait Backoff: Sized {
    /// The internal invariant that `next` needs and preserves.
    spec fn wf(&self) -> bool;

    /// Whether the sequence has no wait left to hand out.
    spec fn exhausted(&self) -> bool;

    /// The state after one successful emission.
    spec fn advanced(&self) -> Self;

    /// Whether one emission may return a wait of `nanos` nanoseconds.
    spec fn may_emit(&self, nanos: nat) -> bool;

    /// Hand out the next wait, or `None` once the policy is spent.
    fn next(&mut self) -> (r: Option<Duration>)
        requires
            old(self).wf(),
        ensures
            final(self).wf(),
            match r {
                Some(d) => !old(self).exhausted() && old(self).may_emit(d@) && *final(self)
                    == old(self).advanced(),
                None => old(self).exhausted() && *final(self) == *old(self),
            },
    ;
}

/// The state of a sequence after `n` successful emissions.
pub open spec fn advanced_n<B: Backoff>(b: B, n: nat) -> B
    decreases n,
{
    if n == 0 {
        b
    } else {
        advanced_n(b, (n - 1) as nat).advanced()
    }
}

/// An immutable configuration object that manufactures a fresh, independent
/// `Backoff` sequence for each retry run.
pub trait BackoffBuilder: Sized {
    type Backoff: Backoff;

    /// The configuration invariant that `build` needs.
    spec fn wf(&self) -> bool;

    /// The sequence this configuration manufactures.
    spec fn build_spec(&self) -> Self::Backoff;

    /// Manufacture a new sequence; repeated calls share no mutable state.
    fn build(&self) -> (b: Self::Backoff)
        requires
            self.wf(),
        ensures
            b == self.build_spec(),
            b.wf(),
    ;
}

/// How a blocking executor parks the calling thread for one wait.
/// The engine decides the waits; performing them is the embedder's business,
/// so implementations live with the embedder and carry no contract.
pub trait Sleeper {
    fn sleep(&mut self, d: Duration);
}

/// A sleeper that does not wait at all, for callers that only want the
/// engine's decisions (and for driving the engine in tests).
pub struct NoSleep;

impl Sleeper for NoSleep {
    fn sleep(&mut self, _d: Duration) {
    }
}

} // verus!
