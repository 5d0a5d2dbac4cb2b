use vstd::prelude::*;

use crate::backoff::Backoff;
use crate::duration::{Duration, NANOS_PER_MILLI};

verus! {

/// An unbounded fixed-interval sequence: every emission is the same delay.
pub struct Fixed {
    pub duration: Duration,
}

impl Fixed {
    pub open spec fn spec_duration(&self) -> nat {
        self.duration@
    }

    pub fn from_millis(millis: u64) -> (r: Fixed)
        requires
            millis * NANOS_PER_MILLI <= u64::MAX,
        ensures
            r.spec_duration() == millis * NANOS_PER_MILLI,
    {
        Fixed { duration: Duration::from_millis(millis) }
    }

    /// Bound this infinite sequence to at most `n` emitted waits.
    pub fn take(self, n: usize) -> (r: Take<Fixed>)
        ensures
            r.spec_inner() == self,
            r.spec_remaining() == n,
    {
        Take { inner: self, remaining: n }
    }
}

impl Backoff for Fixed {
    open spec fn wf(&self) -> bool {
        true
    }

    open spec fn exhausted(&self) -> bool {
        false
    }

    open spec fn advanced(&self) -> Self {
        *self
    }

    open spec fn may_emit(&self, nanos: nat) -> bool {
        nanos == self.duration@
    }

    fn next(&mut self) -> (r: Option<Duration>) {
        Some(self.duration)
    }
}

/// A sequence cut off after at most `remaining` further emissions of the
/// underlying sequence.
pub struct Take<B> {
    pub inner: B,
    pub remaining: usize,
}

impl<B> Take<B> {
    pub open spec fn spec_inner(&self) -> B {
        self.inner
    }

    pub open spec fn spec_remaining(&self) -> usize {
        self.remaining
    }
}

impl<B: Backoff> Backoff for Take<B> {
    open spec fn wf(&self) -> bool {
        self.spec_inner().wf()
    }

    open spec fn exhausted(&self) -> bool {
        self.remaining == 0 || self.inner.exhausted()
    }

    open spec fn advanced(&self) -> Self {
        if self.remaining > 0 {
            Take { inner: self.inner.advanced(), remaining: (self.remaining - 1) as usize }
        } else {
            *self
        }
    }

    open spec fn may_emit(&self, nanos: nat) -> bool {
        self.inner.may_emit(nanos)
    }

    fn next(&mut self) -> (r: Option<Duration>) {
        if self.remaining == 0 {
            None
        } else {
            match self.inner.next() {
                None => None,
                Some(d) => {
                    self.remaining = self.remaining - 1;
                    Some(d)
                },
            }
        }
    }
}

} // verus!
