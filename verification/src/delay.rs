//! A non-negative span of time, counted in nanoseconds.
//!
//! `Delay` plays the role that a wall-clock duration type plays elsewhere:
//! it can represent every value from zero up to `u64::MAX` seconds plus
//! `999_999_999` nanoseconds, and its arithmetic saturates at that ceiling
//! instead of overflowing.

use vstd::prelude::*;

verus! {

use vstd::arithmetic::mul::lemma_mul_upper_bound;

/// Number of nanoseconds in one second.
pub const NANOS_PER_SEC: u128 = 1_000_000_000;

/// The largest representable delay, in nanoseconds:
/// `u64::MAX` seconds plus `999_999_999` nanoseconds.
pub const MAX_DELAY_NANOS: u128 = 18_446_744_073_709_551_615_999_999_999;

/// Clamps a (non-negative) nanosecond count to the representable range.
pub open spec fn sat_nanos(x: int) -> int {
    if x > MAX_DELAY_NANOS { MAX_DELAY_NANOS as int } else { x }
}

/// A span of time with nanosecond resolution and saturating arithmetic.
///
/// The view of a `Delay` is its length in nanoseconds, as a mathematical
/// integer in `[0, MAX_DELAY_NANOS]`.
#[derive(Clone, Copy, Debug, PartialEq, Eq, Structural)]
pub struct Delay {
    nanos: u128,
}

#[verifier::type_invariant]
pub closed spec fn delay_wf(d: Delay) -> bool {
    d.nanos <= MAX_DELAY_NANOS
}

impl View for Delay {
    type V = int;

    closed spec fn view(&self) -> int {
        self.nanos as int
    }
}

/// The view of a delay is never negative.
pub proof fn lemma_delay_nonneg(d: &Delay)
    ensures
        0 <= d@,
{
}

impl Delay {
    /// The zero-length delay.
    pub fn zero() -> (d: Delay)
        ensures
            d@ == 0,
    {
        Delay { nanos: 0 }
    }

    /// The largest representable delay.
    pub fn maximum() -> (d: Delay)
        ensures
            d@ == MAX_DELAY_NANOS,
    {
        Delay { nanos: MAX_DELAY_NANOS }
    }

    /// A delay of `n` nanoseconds.
    pub fn from_nanos(n: u64) -> (d: Delay)
        ensures
            d@ == n,
    {
        Delay { nanos: n as u128 }
    }

    /// A delay of `ms` milliseconds.
    pub fn from_millis(ms: u64) -> (d: Delay)
        ensures
            d@ == ms * 1_000_000,
    {
        proof {
            lemma_mul_upper_bound(ms as int, u64::MAX as int, 1_000_000, 1_000_000);
        }
        Delay { nanos: ms as u128 * 1_000_000 }
    }

    /// A delay of `s` seconds.
    pub fn from_secs(s: u64) -> (d: Delay)
        ensures
            d@ == s * NANOS_PER_SEC,
    {
        proof {
            lemma_mul_upper_bound(s as int, u64::MAX as int, NANOS_PER_SEC as int,
                NANOS_PER_SEC as int);
        }
        Delay { nanos: s as u128 * NANOS_PER_SEC }
    }

    /// A delay of `secs` whole seconds plus `nanos` nanoseconds.
    pub fn from_parts(secs: u64, nanos: u32) -> (d: Delay)
        requires
            nanos < NANOS_PER_SEC,
        ensures
            d@ == secs * NANOS_PER_SEC + nanos,
    {
        proof {
            lemma_mul_upper_bound(secs as int, u64::MAX as int, NANOS_PER_SEC as int,
                NANOS_PER_SEC as int);
        }
        Delay { nanos: secs as u128 * NANOS_PER_SEC + nanos as u128 }
    }

    /// The whole length in nanoseconds.
    pub fn as_nanos(&self) -> (n: u128)
        ensures
            n == self@,
            n <= MAX_DELAY_NANOS,
    {
        proof {
            use_type_invariant(self);
        }
        self.nanos
    }

    /// The number of whole seconds.
    pub fn as_secs(&self) -> (s: u64)
        ensures
            s == self@ / (NANOS_PER_SEC as int),
    {
        proof {
            use_type_invariant(self);
        }
        (self.nanos / NANOS_PER_SEC) as u64
    }

    /// The fractional part below one second, in nanoseconds.
    pub fn subsec_nanos(&self) -> (n: u32)
        ensures
            n == self@ % (NANOS_PER_SEC as int),
    {
        (self.nanos % NANOS_PER_SEC) as u32
    }

    /// Multiplies by `rhs`, clamping at the largest representable delay.
    pub fn saturating_mul(self, rhs: u32) -> (d: Delay)
        ensures
            d@ == sat_nanos(self@ * rhs),
    {
        proof {
            use_type_invariant(self);
            lemma_mul_upper_bound(self.nanos as int, MAX_DELAY_NANOS as int, rhs as int,
                u32::MAX as int);
        }
        let prod: u128 = self.nanos * rhs as u128;
        if prod > MAX_DELAY_NANOS {
            Delay { nanos: MAX_DELAY_NANOS }
        } else {
            Delay { nanos: prod }
        }
    }

    /// Adds `other`, clamping at the largest representable delay.
    pub fn saturating_add(self, other: Delay) -> (d: Delay)
        ensures
            d@ == sat_nanos(self@ + other@),
    {
        proof {
            use_type_invariant(self);
            use_type_invariant(other);
        }
        let sum: u128 = self.nanos + other.nanos;
        if sum > MAX_DELAY_NANOS {
            Delay { nanos: MAX_DELAY_NANOS }
        } else {
            Delay { nanos: sum }
        }
    }

    /// Subtracts `other`, clamping at zero.
    pub fn saturating_sub(self, other: Delay) -> (d: Delay)
        ensures
            d@ == if self@ >= other@ { self@ - other@ } else { 0 },
    {
        proof {
            use_type_invariant(self);
        }
        if self.nanos >= other.nanos {
            Delay { nanos: self.nanos - other.nanos }
        } else {
            Delay { nanos: 0 }
        }
    }

    /// Divides by `rhs`, discarding the remainder.
    pub fn div(self, rhs: u32) -> (d: Delay)
        requires
            rhs > 0,
        ensures
            d@ == self@ / (rhs as int),
    {
        proof {
            use_type_invariant(self);
        }
        Delay { nanos: self.nanos / rhs as u128 }
    }

    /// The smaller of `self` and `other`.
    pub fn min(self, other: Delay) -> (d: Delay)
        ensures
            d@ == if self@ <= other@ { self@ } else { other@ },
    {
        if self.nanos <= other.nanos {
            self
        } else {
            other
        }
    }

    /// The larger of `self` and `other`.
    pub fn max(self, other: Delay) -> (d: Delay)
        ensures
            d@ == if self@ >= other@ { self@ } else { other@ },
    {
        if self.nanos >= other.nanos {
            self
        } else {
            other
        }
    }

    /// Whether `self` is no longer than `other`.
    pub fn le(&self, other: &Delay) -> (r: bool)
        ensures
            r == (self@ <= other@),
    {
        self.nanos <= other.nanos
    }
}

} // verus!
