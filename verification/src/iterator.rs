//! The backoff cursor: a lazy, non-restartable walk over the delay schedule.
//!
//! Each pull either produces the next delay — exponential growth from the
//! configured minimum, perturbed by a jitter draw and clamped to the
//! configured bounds — or signals exhaustion once the retry budget is spent.

use vstd::prelude::*;

verus! {

use vstd::arithmetic::power::{pow, lemma_pow_increases};
use vstd::arithmetic::mul::{lemma_mul_basics, lemma_mul_is_commutative};
use crate::backoff::{Backoff, BackoffModel, retry_limit};
use crate::delay::{Delay, sat_nanos};
use crate::rng::DelayRng;

/// `base ^ exp`, clamped to the `u32` range.
pub open spec fn sat_pow(base: int, exp: nat) -> int {
    if pow(base, exp) > u32::MAX { u32::MAX as int } else { pow(base, exp) }
}

/// The pre-jitter delay of attempt `index`: `min * factor^index`, with both
/// the power and the product saturating.
pub open spec fn base_delay(m: BackoffModel, index: nat) -> int {
    sat_nanos(m.min * sat_pow(m.factor, index))
}

/// The jitter draw applied to a base delay, on the hundredths scale that
/// stands in for fractions: draws below the jitter percentage shorten the
/// delay by `random` percent, the rest lengthen it by `random / 2` percent,
/// every step saturating.
pub open spec fn jittered(jitter: int, base: int, random: int) -> int {
    let scaled = sat_nanos(base * 100);
    if random < jitter {
        let amount = sat_nanos(scaled * random) / 100;
        if scaled >= amount {
            scaled - amount
        } else {
            0
        }
    } else {
        let amount = sat_nanos(scaled * (random / 2)) / 100;
        sat_nanos(scaled + amount)
    }
}

/// The delay of attempt `index` after jitter, before clamping.
pub open spec fn raw_delay(m: BackoffModel, index: nat, random: int) -> int {
    jittered(m.jitter, base_delay(m, index), random) / 100
}

/// Clamps a delay down to the configured maximum (when one is set) and then
/// up to the configured minimum.
pub open spec fn clamped(m: BackoffModel, x: int) -> int {
    let capped = match m.max {
        Some(mx) => if x > mx { mx } else { x },
        None => x,
    };
    if capped < m.min {
        m.min
    } else {
        capped
    }
}

/// The delay emitted for attempt `index` when the jitter draw came out as
/// `random`.
pub open spec fn emitted_delay(m: BackoffModel, index: nat, random: int) -> int {
    clamped(m, raw_delay(m, index, random))
}

/// The draws a generator may yield for a given jitter percentage: none is
/// drawn when the jitter is zero, else one below twice the percentage.
pub open spec fn valid_random(jitter: int, random: int) -> bool {
    if jitter == 0 {
        random == 0
    } else {
        0 <= random < 2 * jitter
    }
}

/// Whether a cursor standing at `count` has spent the whole budget.
pub open spec fn is_exhausted(retries: int, count: int) -> bool {
    count == retry_limit(retries)
}

/// The cursor position after one pull: exhaustion is absorbing, every other
/// position advances by one.
pub open spec fn count_step(retries: int, count: int) -> int {
    if is_exhausted(retries, count) {
        count
    } else {
        count + 1
    }
}

/// The jitter draw a deterministic generator makes for jitter percentage
/// `jitter` (zero jitter draws nothing).
pub open spec fn det_drawn<R: DelayRng>(rng: R, jitter: int) -> int {
    if jitter == 0 {
        0
    } else {
        rng.next_value((2 * jitter) as u32) as int
    }
}

/// The generator state after the jitter draw for percentage `jitter`.
pub open spec fn det_rng_after<R: DelayRng>(rng: R, jitter: int) -> R {
    if jitter == 0 {
        rng
    } else {
        rng.stepped((2 * jitter) as u32)
    }
}

/// `base ^ exp` with saturation at `u32::MAX`.
pub fn saturating_pow(base: u32, exp: u32) -> (r: u32)
    ensures
        r == sat_pow(base as int, exp as nat),
{
    let mut result: u32 = 1;
    let mut i: u32 = 0;
    proof {
        reveal(pow);
    }
    while i < exp
        invariant
            i <= exp,
            result == pow(base as int, i as nat),
            pow(base as int, i as nat) <= u32::MAX,
        decreases exp - i,
    {
        match result.checked_mul(base) {
            Some(next) => {
                proof {
                    reveal(pow);
                    assert(pow(base as int, (i + 1) as nat) == base * pow(base as int, i as nat));
                    lemma_mul_is_commutative(base as int, result as int);
                }
                result = next;
            },
            None => {
                proof {
                    reveal(pow);
                    assert(pow(base as int, (i + 1) as nat) == base * pow(base as int, i as nat));
                    lemma_mul_is_commutative(base as int, result as int);
                    assert(base >= 1) by {
                        if base == 0 {
                            lemma_mul_basics(result as int);
                        }
                    }
                    lemma_pow_increases(base as nat, (i + 1) as nat, exp as nat);
                }
                return u32::MAX;
            },
        }
        i = i + 1;
    }
    result
}

/// The delay emitted for retry `index` of schedule `b` when the jitter draw
/// came out as `random`: exponential growth from the minimum, jitter on the
/// hundredths scale, and clamping to the configured bounds.
pub fn delay_for(b: &Backoff, index: u32, random: u32) -> (d: Delay)
    ensures
        d@ == emitted_delay(b@, index as nat, random as int),
{
    let exponent = saturating_pow(b.factor(), index);
    let base = b.min().saturating_mul(exponent);
    let scaled = base.saturating_mul(100);
    let after_jitter = if random < b.jitter_percent() {
        let amount = scaled.saturating_mul(random).div(100);
        scaled.saturating_sub(amount)
    } else {
        let amount = scaled.saturating_mul(random / 2).div(100);
        scaled.saturating_add(amount)
    };
    let mut d = after_jitter.div(100);
    match b.max() {
        Some(mx) => {
            d = d.min(mx);
        },
        None => {},
    }
    d.max(b.min())
}

/// An exponential backoff cursor: borrows a schedule and produces one delay
/// per pull until the retry budget is spent.
#[derive(Debug)]
pub struct Iter<'b, R> {
    inner: &'b Backoff,
    rng: R,
    retry_count: u32,
}

impl<'b, R: DelayRng + Clone> Clone for Iter<'b, R> {
    /// A clone walks the same schedule from the same position; what its
    /// generator yields after cloning is up to `R`'s own `Clone`.
    fn clone(&self) -> (it: Self)
        ensures
            it.config() == self.config(),
            it.count() == self.count(),
            self.wf() ==> it.wf(),
    {
        Iter { inner: self.inner, rng: self.rng.clone(), retry_count: self.retry_count }
    }
}

impl<'b, R: DelayRng> Iter<'b, R> {
    /// The borrowed schedule.
    pub closed spec fn config(&self) -> BackoffModel {
        self.inner@
    }

    /// The cursor position: the retry index of the next pull.
    pub closed spec fn count(&self) -> int {
        self.retry_count as int
    }

    /// The randomness source.
    pub closed spec fn rng(&self) -> R {
        self.rng
    }

    /// A cursor is well-formed while its position has not passed the
    /// exhaustion point.
    pub open spec fn wf(&self) -> bool {
        self.count() <= retry_limit(self.config().retries)
    }

    /// A cursor over `inner` that starts at the first attempt.
    pub fn new(inner: &'b Backoff, rng: R) -> (it: Iter<'b, R>)
        ensures
            it.config() == inner@,
            it.count() == 0,
            it.rng() == rng,
            it.wf(),
    {
        proof {
            crate::backoff::lemma_model_in_range(inner);
        }
        Self::with_count(inner, 0, rng)
    }

    /// A cursor over `inner` that resumes at retry index `retry_count`.
    pub fn with_count(inner: &'b Backoff, retry_count: u32, rng: R) -> (it: Iter<'b, R>)
        requires
            retry_count <= retry_limit(inner@.retries),
        ensures
            it.config() == inner@,
            it.count() == retry_count,
            it.rng() == rng,
            it.wf(),
    {
        Iter { inner, retry_count, rng }
    }

    /// Produces the next delay of the schedule, or `None` once the budget of
    /// `retries + 1` (saturating) values is spent.  Exhaustion is absorbing.
    pub fn next(&mut self) -> (r: Option<Delay>)
        requires
            old(self).wf(),
        ensures
            final(self).wf(),
            final(self).config() == old(self).config(),
            final(self).count() == count_step(old(self).config().retries, old(self).count()),
            (r is None) <==> is_exhausted(old(self).config().retries, old(self).count()),
            r is None ==> *final(self) == *old(self),
            r matches Some(d) ==> (exists|random: int|
                valid_random(old(self).config().jitter, random) && d@ == #[trigger] emitted_delay(
                    old(self).config(),
                    old(self).count() as nat,
                    random,
                )),
            r matches Some(d) ==> d@ >= old(self).config().min,
            r matches Some(d) ==> (old(self).config().max matches Some(mx) ==> (old(
                self,
            ).config().min <= mx ==> d@ <= mx)),
            old(self).rng().deterministic() ==> {
                &&& (r matches Some(d) ==> d@ == emitted_delay(
                    old(self).config(),
                    old(self).count() as nat,
                    det_drawn(old(self).rng(), old(self).config().jitter),
                ))
                &&& (r is Some ==> final(self).rng() == det_rng_after(
                    old(self).rng(),
                    old(self).config().jitter,
                ))
                &&& final(self).rng().deterministic()
            },
    {
        let retries = self.inner.retries();
        let limit = if retries == u32::MAX {
            u32::MAX
        } else {
            retries + 1
        };
        if self.retry_count == limit {
            return None;
        }
        let jf = self.inner.jitter_percent();
        let random = if jf == 0 {
            0
        } else {
            self.rng.next_below(2 * jf)
        };
        let d = delay_for(self.inner, self.retry_count, random);
        proof {
            let m = old(self).config();
            let cn = old(self).count() as nat;
            assert(cn == self.retry_count as nat);
            assert(valid_random(m.jitter, random as int));
            assert(d@ == emitted_delay(m, cn, random as int));
        }
        self.retry_count = self.retry_count + 1;
        Some(d)
    }
}

} // verus!
