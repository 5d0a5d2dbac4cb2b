use rand::Rng;
use vstd::prelude::*;

use crate::backoff::{advanced_n, Backoff, BackoffBuilder};
use crate::duration::{spec_saturating_add, Duration, NANOS_PER_SEC};

verus! {

/// Configuration for the exponential policy: the first wait is `min_delay`,
/// each further wait multiplies the stored baseline by `factor_num /
/// factor_den` until the baseline reaches `max_delay` (growth is skipped
/// from then on, and also when no cap is set), and at most `max_times`
/// waits are handed out. With `jitter` enabled, each emitted wait carries
/// an extra random offset drawn from `[0, min_delay)`; the offset is never
/// folded into the stored baseline, so growth stays deterministic.
///
/// The growth factor is the exact rational `factor_num / factor_den`; each
/// growth step computes `baseline * factor_num / factor_den` in whole
/// nanoseconds, rounding down.
#[derive(Clone, Copy, Debug)]
pub struct ExponentialBuilder {
    pub jitter: bool,
    pub factor_num: u64,
    pub factor_den: u64,
    pub min_delay: Duration,
    pub max_delay: Option<Duration>,
    pub max_times: Option<usize>,
}

impl ExponentialBuilder {
    pub open spec fn spec_jitter(&self) -> bool {
        self.jitter
    }

    pub open spec fn spec_factor_num(&self) -> nat {
        self.factor_num as nat
    }

    pub open spec fn spec_factor_den(&self) -> nat {
        self.factor_den as nat
    }

    pub open spec fn spec_min_delay(&self) -> nat {
        self.min_delay@
    }

    pub open spec fn spec_max_delay(&self) -> Option<nat> {
        match self.max_delay {
            None => None,
            Some(d) => Some(d@),
        }
    }

    pub open spec fn spec_max_times(&self) -> Option<usize> {
        self.max_times
    }

    /// Add a random offset in `[0, min_delay)` to every emitted wait.
    pub fn with_jitter(self) -> (r: Self)
        ensures
            r.spec_jitter(),
            r.spec_factor_num() == self.spec_factor_num(),
            r.spec_factor_den() == self.spec_factor_den(),
            r.spec_min_delay() == self.spec_min_delay(),
            r.spec_max_delay() == self.spec_max_delay(),
            r.spec_max_times() == self.spec_max_times(),
    {
        ExponentialBuilder { jitter: true, ..self }
    }

    /// Set the growth factor to the rational `num / den`, which must be
    /// greater than one.
    pub fn with_factor(self, num: u64, den: u64) -> (r: Self)
        requires
            den >= 1,
            num > den,
        ensures
            r.spec_jitter() == self.spec_jitter(),
            r.spec_factor_num() == num,
            r.spec_factor_den() == den,
            r.spec_min_delay() == self.spec_min_delay(),
            r.spec_max_delay() == self.spec_max_delay(),
            r.spec_max_times() == self.spec_max_times(),
    {
        ExponentialBuilder { factor_num: num, factor_den: den, ..self }
    }

    pub fn with_min_delay(self, min_delay: Duration) -> (r: Self)
        ensures
            r.spec_jitter() == self.spec_jitter(),
            r.spec_factor_num() == self.spec_factor_num(),
            r.spec_factor_den() == self.spec_factor_den(),
            r.spec_min_delay() == min_delay@,
            r.spec_max_delay() == self.spec_max_delay(),
            r.spec_max_times() == self.spec_max_times(),
    {
        ExponentialBuilder { min_delay, ..self }
    }

    pub fn with_max_delay(self, max_delay: Duration) -> (r: Self)
        ensures
            r.spec_jitter() == self.spec_jitter(),
            r.spec_factor_num() == self.spec_factor_num(),
            r.spec_factor_den() == self.spec_factor_den(),
            r.spec_min_delay() == self.spec_min_delay(),
            r.spec_max_delay() == Some(max_delay@),
            r.spec_max_times() == self.spec_max_times(),
    {
        ExponentialBuilder { max_delay: Some(max_delay), ..self }
    }

    pub fn with_max_times(self, max_times: usize) -> (r: Self)
        ensures
            r.spec_jitter() == self.spec_jitter(),
            r.spec_factor_num() == self.spec_factor_num(),
            r.spec_factor_den() == self.spec_factor_den(),
            r.spec_min_delay() == self.spec_min_delay(),
            r.spec_max_delay() == self.spec_max_delay(),
            r.spec_max_times() == Some(max_times),
    {
        ExponentialBuilder { max_times: Some(max_times), ..self }
    }
}

impl Default for ExponentialBuilder {
    /// No jitter, a factor of two, a first wait of one second, a cap of
    /// sixty seconds, and three waits at most.
    fn default() -> (r: Self)
        ensures
            !r.spec_jitter(),
            r.spec_factor_num() == 2,
            r.spec_factor_den() == 1,
            r.spec_min_delay() == NANOS_PER_SEC,
            r.spec_max_delay() == Some((60 * NANOS_PER_SEC) as nat),
            r.spec_max_times() == Some(3usize),
            r.wf(),
    {
        ExponentialBuilder {
            jitter: false,
            factor_num: 2,
            factor_den: 1,
            min_delay: Duration::from_nanos(NANOS_PER_SEC),
            max_delay: Some(Duration::from_nanos(60 * NANOS_PER_SEC)),
            max_times: Some(3),
        }
    }
}

impl BackoffBuilder for ExponentialBuilder {
    type Backoff = ExponentialBackoff;

    /// The factor must exceed one, and a cap, when present, must not lie
    /// below the first wait.
    open spec fn wf(&self) -> bool {
        &&& self.spec_factor_den() >= 1
        &&& self.spec_factor_num() > self.spec_factor_den()
        &&& (self.spec_max_delay() matches Some(m) ==> m >= self.spec_min_delay())
    }

    open spec fn build_spec(&self) -> ExponentialBackoff {
        ExponentialBackoff {
            jitter: self.jitter,
            factor_num: self.factor_num,
            factor_den: self.factor_den,
            min_delay: self.min_delay,
            max_delay: self.max_delay,
            max_times: self.max_times,
            current_delay: None,
            attempts: 0,
        }
    }

    fn build(&self) -> (b: ExponentialBackoff) {
        ExponentialBackoff {
            jitter: self.jitter,
            factor_num: self.factor_num,
            factor_den: self.factor_den,
            min_delay: self.min_delay,
            max_delay: self.max_delay,
            max_times: self.max_times,
            current_delay: None,
            attempts: 0,
        }
    }
}

/// One growth step: `cur * num / den` rounded down, stopped at the largest
/// representable span.
pub open spec fn spec_grow(cur: nat, num: nat, den: nat) -> nat
    recommends
        den >= 1,
{
    if cur * num / den > u64::MAX {
        u64::MAX as nat
    } else {
        cur * num / den
    }
}

/// The exponential sequence: a deterministic growing baseline, plus an
/// optional random jitter added only to the emitted value.
pub struct ExponentialBackoff {
    pub jitter: bool,
    pub factor_num: u64,
    pub factor_den: u64,
    pub min_delay: Duration,
    pub max_delay: Option<Duration>,
    pub max_times: Option<usize>,
    pub current_delay: Option<Duration>,
    pub attempts: usize,
}

impl ExponentialBackoff {
    pub open spec fn spec_jitter(&self) -> bool {
        self.jitter
    }

    pub open spec fn spec_factor_num(&self) -> nat {
        self.factor_num as nat
    }

    pub open spec fn spec_factor_den(&self) -> nat {
        self.factor_den as nat
    }

    pub open spec fn spec_min_delay(&self) -> nat {
        self.min_delay@
    }

    pub open spec fn spec_max_delay(&self) -> Option<nat> {
        match self.max_delay {
            None => None,
            Some(d) => Some(d@),
        }
    }

    pub open spec fn spec_max_times(&self) -> Option<usize> {
        self.max_times
    }

    /// The last unjittered delay handed out, the basis of the next growth
    /// step; `None` before the first emission.
    pub open spec fn spec_current_delay(&self) -> Option<nat> {
        match self.current_delay {
            None => None,
            Some(d) => Some(d@),
        }
    }

    pub open spec fn spec_attempts(&self) -> usize {
        self.attempts
    }

    /// The unjittered value of the next emission: the first wait is
    /// `min_delay`; afterwards the stored baseline, grown by the factor
    /// while it lies below the cap (growth is skipped at or above the cap,
    /// and when no cap is set).
    pub open spec fn spec_next_base(&self) -> nat {
        match self.spec_current_delay() {
            None => self.spec_min_delay(),
            Some(cur) => match self.spec_max_delay() {
                None => cur,
                Some(m) => if cur < m {
                    spec_grow(cur, self.spec_factor_num(), self.spec_factor_den())
                } else {
                    cur
                },
            },
        }
    }
}

impl Backoff for ExponentialBackoff {
    open spec fn wf(&self) -> bool {
        self.spec_factor_den() >= 1 && self.spec_factor_num() > self.spec_factor_den()
    }

    open spec fn exhausted(&self) -> bool {
        match self.max_times {
            None => self.attempts >= usize::MAX,
            Some(m) => self.attempts >= m,
        }
    }

    open spec fn advanced(&self) -> Self {
        if self.exhausted() {
            *self
        } else {
            ExponentialBackoff {
                current_delay: Some(Duration { nanos: self.spec_next_base() as u64 }),
                attempts: (self.attempts + 1) as usize,
                ..*self
            }
        }
    }

    open spec fn may_emit(&self, nanos: nat) -> bool {
        let base = self.spec_next_base();
        if self.spec_jitter() && self.spec_min_delay() > 0 {
            base <= nanos && nanos <= spec_saturating_add(base, (self.spec_min_delay() - 1) as nat)
        } else {
            nanos == base
        }
    }

    fn next(&mut self) -> (r: Option<Duration>) {
        let ghost pre = *self;
        let limit: usize = match self.max_times {
            Some(m) => m,
            None => usize::MAX,
        };
        if self.attempts >= limit {
            return None;
        }
        self.attempts = self.attempts + 1;
        let base: Duration = match self.current_delay {
            None => self.min_delay,
            Some(cur) => match self.max_delay {
                None => cur,
                Some(md) => if cur.lt(&md) {
                    grow(cur, self.factor_num, self.factor_den)
                } else {
                    cur
                },
            },
        };
        proof {
            assert(base@ == pre.spec_next_base());
        }
        self.current_delay = Some(base);
        proof {
            assert(*self == pre.advanced());
        }
        let ret: Duration = if self.jitter {
            let width = self.min_delay.as_nanos();
            if width > 0 {
                let offset = random_below(width);
                let out = base.saturating_add(Duration::from_nanos(offset));
                proof {
                    assert(out@ <= spec_saturating_add(base@, (width - 1) as nat));
                }
                out
            } else {
                base
            }
        } else {
            base
        };
        Some(ret)
    }
}

/// One exact growth step in whole nanoseconds, the product taken in a
/// wider integer so that it cannot overflow.
fn grow(cur: Duration, num: u64, den: u64) -> (r: Duration)
    requires
        den >= 1,
    ensures
        r@ == spec_grow(cur@, num as nat, den as nat),
{
    let c = cur.as_nanos();
    proof {
        assert((c as u128) * (num as u128) <= u128::MAX) by (nonlinear_arith)
            requires
                c <= u64::MAX,
                num <= u64::MAX,
        ;
    }
    let q: u128 = (c as u128) * (num as u128) / (den as u128);
    if q > u64::MAX as u128 {
        Duration::from_nanos(u64::MAX)
    } else {
        Duration::from_nanos(q as u64)
    }
}

/// Relies on rand::Rng::gen_range over the half-open range `0..bound`:
/// every sampled value lies below `bound` (the range must not be empty).
#[verifier::external_body]
fn random_below(bound: u64) -> (r: u64)
    requires
        bound > 0,
    ensures
        r < bound,
{
    rand::thread_rng().gen_range(0..bound)
}

/// The unjittered baseline of the emission made after `n` earlier ones:
/// the first wait is `min`, and each step grows the previous baseline by
/// `num / den` while it lies below the cap, and leaves it unchanged once
/// it has reached the cap or when no cap is set.
pub open spec fn exponential_baseline(
    min: nat,
    num: nat,
    den: nat,
    max: Option<nat>,
    n: nat,
) -> nat
    decreases n,
{
    if n == 0 {
        min
    } else {
        let prev = exponential_baseline(min, num, den, max, (n - 1) as nat);
        match max {
            None => prev,
            Some(m) => if prev < m {
                spec_grow(prev, num, den)
            } else {
                prev
            },
        }
    }
}

/// Law: the sequence a configuration manufactures follows the growth
/// formula exactly. After `n` emissions (with waits still left), the
/// stored state has counted `n` waits, keeps the configuration unchanged,
/// and bases its next emission on `exponential_baseline` at `n` — the
/// random jitter never enters the stored baseline, so the growth curve is
/// deterministic whether or not jitter is enabled.
pub proof fn lemma_exponential_baseline(cfg: ExponentialBuilder, n: nat)
    requires
        n < usize::MAX,
        cfg.spec_max_times() matches Some(m) ==> n < m,
    ensures
        advanced_n(cfg.build_spec(), n).spec_jitter() == cfg.spec_jitter(),
        advanced_n(cfg.build_spec(), n).spec_factor_num() == cfg.spec_factor_num(),
        advanced_n(cfg.build_spec(), n).spec_factor_den() == cfg.spec_factor_den(),
        advanced_n(cfg.build_spec(), n).spec_min_delay() == cfg.spec_min_delay(),
        advanced_n(cfg.build_spec(), n).spec_max_delay() == cfg.spec_max_delay(),
        advanced_n(cfg.build_spec(), n).spec_max_times() == cfg.spec_max_times(),
        advanced_n(cfg.build_spec(), n).spec_attempts() == n,
        advanced_n(cfg.build_spec(), n).spec_next_base() == exponential_baseline(
            cfg.spec_min_delay(),
            cfg.spec_factor_num(),
            cfg.spec_factor_den(),
            cfg.spec_max_delay(),
            n,
        ),
    decreases n,
{
    if n > 0 {
        lemma_exponential_baseline(cfg, (n - 1) as nat);
    }
}

/// Law: once the growth formula has reached the cap, it stays at the
/// value it reached, forever.
pub proof fn lemma_exponential_cap_stable(
    min: nat,
    num: nat,
    den: nat,
    m: nat,
    n1: nat,
    n2: nat,
)
    requires
        exponential_baseline(min, num, den, Some(m), n1) >= m,
        n1 <= n2,
    ensures
        exponential_baseline(min, num, den, Some(m), n2) == exponential_baseline(
            min,
            num,
            den,
            Some(m),
            n1,
        ),
    decreases n2 - n1,
{
    if n2 > n1 {
        lemma_exponential_cap_stable(min, num, den, m, n1, (n2 - 1) as nat);
    }
}

/// Law: jitter and the configuration survive any number of emissions.
pub proof fn lemma_advanced_keeps_jitter(b: ExponentialBackoff, n: nat)
    ensures
        advanced_n(b, n).spec_jitter() == b.spec_jitter(),
        advanced_n(b, n).spec_min_delay() == b.spec_min_delay(),
    decreases n,
{
    if n > 0 {
        lemma_advanced_keeps_jitter(b, (n - 1) as nat);
    }
}

/// Law: with jitter enabled, every wait an emission may carry lies in
/// `[baseline, baseline + min_delay)`, the upper end saturating at the
/// largest representable span.
pub proof fn lemma_jitter_bounds(b: ExponentialBackoff, v: nat)
    requires
        b.spec_jitter(),
        b.spec_min_delay() > 0,
        b.may_emit(v),
    ensures
        b.spec_next_base() <= v,
        v < spec_saturating_add(b.spec_next_base(), b.spec_min_delay()) || v == u64::MAX,
{
}

/// Law: with jitter disabled the engine is reproducible — two sequences
/// built from the same configuration and driven through the same number
/// of emissions can only emit one and the same wait, so full runs of the
/// two produce identical delay sequences.
pub proof fn lemma_deterministic_without_jitter(cfg: ExponentialBuilder, n: nat, v1: nat, v2: nat)
    requires
        !cfg.spec_jitter(),
        advanced_n(cfg.build_spec(), n).may_emit(v1),
        advanced_n(cfg.build_spec(), n).may_emit(v2),
    ensures
        v1 == v2,
{
    lemma_advanced_keeps_jitter(cfg.build_spec(), n);
}

} // verus!
