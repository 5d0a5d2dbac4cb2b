use vstd::prelude::*;

use crate::backoff::{advanced_n, Backoff, BackoffBuilder};
use crate::duration::{Duration, NANOS_PER_SEC};

verus! {

/// Configuration for the fixed-interval policy: every wait is `delay`,
/// and at most `max_times` waits are handed out (infinitely many when
/// `max_times` is `None`).
#[derive(Clone, Copy, Debug)]
pub struct ConstantBuilder {
    pub delay: Duration,
    pub max_times: Option<usize>,
}

impl ConstantBuilder {
    pub open spec fn spec_delay(&self) -> nat {
        self.delay@
    }

    pub open spec fn spec_max_times(&self) -> Option<usize> {
        self.max_times
    }

    pub fn with_delay(self, delay: Duration) -> (r: Self)
        ensures
            r.spec_delay() == delay@,
            r.spec_max_times() == self.spec_max_times(),
    {
        ConstantBuilder { delay, max_times: self.max_times }
    }

    pub fn with_max_times(self, max_times: usize) -> (r: Self)
        ensures
            r.spec_delay() == self.spec_delay(),
            r.spec_max_times() == Some(max_times),
    {
        ConstantBuilder { delay: self.delay, max_times: Some(max_times) }
    }
}

impl Default for ConstantBuilder {
    /// One second between attempts, three waits at most.
    fn default() -> (r: Self)
        ensures
            r.spec_delay() == NANOS_PER_SEC,
            r.spec_max_times() == Some(3usize),
    {
        ConstantBuilder { delay: Duration::from_nanos(NANOS_PER_SEC), max_times: Some(3) }
    }
}

impl BackoffBuilder for ConstantBuilder {
    type Backoff = ConstantBackoff;

    open spec fn wf(&self) -> bool {
        true
    }

    open spec fn build_spec(&self) -> ConstantBackoff {
        ConstantBackoff { delay: self.delay, max_times: self.max_times, attempts: 0 }
    }

    fn build(&self) -> (b: ConstantBackoff) {
        ConstantBackoff { delay: self.delay, max_times: self.max_times, attempts: 0 }
    }
}

/// The fixed-interval sequence: emits its delay unchanged until the bound
/// on the number of waits, if any, is reached.
pub struct ConstantBackoff {
    pub delay: Duration,
    pub max_times: Option<usize>,
    pub attempts: usize,
}

impl ConstantBackoff {
    pub open spec fn spec_delay(&self) -> nat {
        self.delay@
    }

    pub open spec fn spec_attempts(&self) -> usize {
        self.attempts
    }
}

impl Default for ConstantBackoff {
    /// One second between attempts, three waits at most.
    fn default() -> (r: Self)
        ensures
            r.spec_delay() == NANOS_PER_SEC,
            r.spec_attempts() == 0,
            !r.exhausted(),
            r.wf(),
    {
        ConstantBackoff {
            delay: Duration::from_nanos(NANOS_PER_SEC),
            max_times: Some(3),
            attempts: 0,
        }
    }
}

impl Backoff for ConstantBackoff {
    open spec fn wf(&self) -> bool {
        true
    }

    open spec fn exhausted(&self) -> bool {
        match self.max_times {
            None => false,
            Some(m) => self.attempts >= m,
        }
    }

    open spec fn advanced(&self) -> Self {
        match self.max_times {
            None => *self,
            Some(m) => if self.attempts < m {
                ConstantBackoff {
                    delay: self.delay,
                    max_times: self.max_times,
                    attempts: (self.attempts + 1) as usize,
                }
            } else {
                *self
            },
        }
    }

    open spec fn may_emit(&self, nanos: nat) -> bool {
        nanos == self.delay@
    }

    fn next(&mut self) -> (r: Option<Duration>) {
        match self.max_times {
            None => Some(self.delay),
            Some(max_times) => {
                if self.attempts >= max_times {
                    None
                } else {
                    self.attempts = self.attempts + 1;
                    Some(self.delay)
                }
            },
        }
    }
}

/// Law: the fixed-interval sequence, however far it has been driven,
/// can emit nothing but its configured delay — so two sequences built
/// from the same configuration and driven alike emit identical delays.
pub proof fn lemma_constant_deterministic(cfg: ConstantBuilder, n: nat, v: nat)
    requires
        advanced_n(cfg.build_spec(), n).may_emit(v),
    ensures
        v == cfg.spec_delay(),
{
    lemma_constant_delay_kept(cfg.build_spec(), n);
}

proof fn lemma_constant_delay_kept(b: ConstantBackoff, n: nat)
    ensures
        advanced_n(b, n).spec_delay() == b.spec_delay(),
    decreases n,
{
    if n > 0 {
        lemma_constant_delay_kept(b, (n - 1) as nat);
    }
}

} // verus!
