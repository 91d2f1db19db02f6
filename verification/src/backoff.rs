//! The backoff configuration: retry budget, delay bounds, growth factor and
//! jitter fraction.

use vstd::prelude::*;

verus! {

use crate::delay::{lemma_delay_nonneg, Delay};
use crate::iterator::Iter;
use crate::rng::{DefaultRng, DelayRng};

/// The mathematical content of a [`Backoff`] configuration: every duration is
/// a nanosecond count, and the jitter fraction is a whole percentage.
pub struct BackoffModel {
    /// Maximum number of retries after the first attempt.
    pub retries: int,
    /// Lower bound for every emitted delay, and the base of the growth.
    pub min: int,
    /// Optional upper bound for every emitted delay.
    pub max: Option<int>,
    /// Exponential growth multiplier.
    pub factor: int,
    /// Jitter fraction as a percentage in `[0, 100]`.
    pub jitter: int,
}

/// One more than the retry count, saturating at `u32::MAX`: the number of
/// values a fresh cursor produces before exhaustion.
pub open spec fn retry_limit(retries: int) -> int {
    if retries + 1 > u32::MAX { u32::MAX as int } else { retries + 1 }
}

/// Growth multiplier that [`Backoff::new`] establishes.
pub const DEFAULT_FACTOR: u32 = 2;

/// Jitter percentage that [`Backoff::new`] establishes.
pub const DEFAULT_JITTER_PERCENT: u32 = 30;

/// An immutable description of an exponential backoff schedule.
///
/// Its view is a [`BackoffModel`]; the jitter percentage is kept in
/// `[0, 100]` as a type invariant.
#[derive(Debug)]
pub struct Backoff {
    retries: u32,
    min: Delay,
    max: Option<Delay>,
    factor: u32,
    jitter_percent: u32,
}

#[verifier::type_invariant]
pub closed spec fn backoff_wf(b: Backoff) -> bool {
    b.jitter_percent <= 100
}

impl View for Backoff {
    type V = BackoffModel;

    closed spec fn view(&self) -> BackoffModel {
        BackoffModel {
            retries: self.retries as int,
            min: self.min@,
            max: match self.max {
                Some(d) => Some(d@),
                None => None,
            },
            factor: self.factor as int,
            jitter: self.jitter_percent as int,
        }
    }
}

/// The view of a configuration stays within machine ranges: every field of
/// the model comes from a fixed-width value.
pub proof fn lemma_model_in_range(b: &Backoff)
    ensures
        0 <= b@.retries <= u32::MAX,
        0 <= b@.min,
        0 <= b@.factor <= u32::MAX,
        0 <= b@.jitter <= u32::MAX,
        b@.max matches Some(mx) ==> 0 <= mx,
{
    lemma_delay_nonneg(&b.min);
    match &b.max {
        Some(d) => lemma_delay_nonneg(d),
        None => (),
    }
}

impl Clone for Backoff {
    /// A clone describes the same schedule.
    fn clone(&self) -> (b: Self)
        ensures
            b@ == self@,
    {
        proof {
            use_type_invariant(self);
        }
        Backoff {
            retries: self.retries,
            min: self.min,
            max: self.max,
            factor: self.factor,
            jitter_percent: self.jitter_percent,
        }
    }
}

impl Backoff {
    /// A schedule that retries `retries` times, waiting at least `min` and,
    /// when `max` is given, at most `max`, with the default growth factor
    /// and jitter.
    pub fn new(retries: u32, min: Delay, max: Option<Delay>) -> (b: Backoff)
        ensures
            b@.retries == retries,
            b@.min == min@,
            (b@.max matches Some(mx) && max matches Some(d) && mx == d@) || (b@.max is None
                && max is None),
            b@.factor == DEFAULT_FACTOR,
            b@.jitter == DEFAULT_JITTER_PERCENT,
    {
        Backoff {
            retries,
            min,
            max,
            factor: DEFAULT_FACTOR,
            jitter_percent: DEFAULT_JITTER_PERCENT,
        }
    }

    /// Replaces the growth factor.
    pub fn set_factor(&mut self, factor: u32)
        ensures
            final(self)@ == (BackoffModel { factor: factor as int, ..old(self)@ }),
    {
        proof {
            use_type_invariant(&*self);
        }
        self.factor = factor;
    }

    /// Replaces the jitter fraction, given as a whole percentage in
    /// `[0, 100]`.
    pub fn set_jitter_percent(&mut self, jitter: u32)
        requires
            jitter <= 100,
        ensures
            final(self)@ == (BackoffModel { jitter: jitter as int, ..old(self)@ }),
    {
        proof {
            use_type_invariant(&*self);
        }
        self.jitter_percent = jitter;
    }

    /// The configured retry count.
    pub fn retries(&self) -> (r: u32)
        ensures
            r == self@.retries,
    {
        self.retries
    }

    /// The configured lower bound.
    pub fn min(&self) -> (d: Delay)
        ensures
            d@ == self@.min,
    {
        self.min
    }

    /// The configured upper bound, if any.
    pub fn max(&self) -> (d: Option<Delay>)
        ensures
            (d matches Some(x) && self@.max matches Some(mx) && x@ == mx) || (d is None
                && self@.max is None),
    {
        self.max
    }

    /// The configured growth factor.
    pub fn factor(&self) -> (f: u32)
        ensures
            f == self@.factor,
    {
        self.factor
    }

    /// A fresh cursor over this schedule, drawing jitter from the
    /// thread-local generator.
    pub fn iter(&self) -> (it: Iter<'_, DefaultRng>)
        ensures
            it.config() == self@,
            it.count() == 0,
            it.wf(),
    {
        Iter::new(self, DefaultRng::new())
    }

    /// A fresh cursor over this schedule, drawing jitter from `rng`.
    pub fn iter_with<R: DelayRng>(&self, rng: R) -> (it: Iter<'_, R>)
        ensures
            it.config() == self@,
            it.count() == 0,
            it.rng() == rng,
            it.wf(),
    {
        Iter::new(self, rng)
    }

    /// The configured jitter percentage, always in `[0, 100]`.
    pub fn jitter_percent(&self) -> (j: u32)
        ensures
            j == self@.jitter,
            j <= 100,
    {
        proof {
            use_type_invariant(self);
        }
        self.jitter_percent
    }
}

} // verus!
