//! Randomness sources for the jitter draw.
//!
//! The cursor asks its source for one uniformly distributed integer per
//! produced value.  [`DefaultRng`] draws from the thread-local generator of
//! the `rand` crate; [`SeededRng`] is a small deterministic generator whose
//! whole output is fixed by its seed, for reproducible schedules.

use vstd::prelude::*;

verus! {

/// A source of uniformly distributed integers below a caller-chosen bound.
///
/// A source whose `deterministic` spec holds pins its output down exactly:
/// the drawn value and the successor state are functions of the visible
/// state, which is what makes a seeded schedule reproducible.
pub trait DelayRng: Sized {
    /// Whether the output is a function of the visible state.
    spec fn deterministic(&self) -> bool;

    /// The value the next draw below `bound` yields, when deterministic.
    spec fn next_value(&self, bound: u32) -> u32;

    /// The state after one draw below `bound`, when deterministic.
    spec fn stepped(&self, bound: u32) -> Self;

    /// Draws one integer uniformly from `[0, bound)`.
    fn next_below(&mut self, bound: u32) -> (r: u32)
        requires
            bound > 0,
        ensures
            r < bound,
            old(self).deterministic() ==> r == old(self).next_value(bound) && *final(self) == old(
                self,
            ).stepped(bound) && final(self).deterministic(),
    ;
}

/// Multiplier of the linear congruential step.
pub const LCG_MUL: u64 = 6364136223846793005;

/// Increment of the linear congruential step.
pub const LCG_INC: u64 = 1442695040888963407;

/// The successor state of the linear congruential generator.
pub open spec fn lcg_next(state: u64) -> u64 {
    state.wrapping_mul(LCG_MUL).wrapping_add(LCG_INC)
}

/// What a draw below `bound` yields from state `state`.
pub open spec fn lcg_draw(state: u64, bound: u32) -> u32 {
    (lcg_next(state) % (bound as u64)) as u32
}

/// A deterministic generator (a linear congruential generator): the whole
/// sequence of draws is a function of the seed.
#[derive(Clone, Copy, Debug, PartialEq, Eq, Structural)]
pub struct SeededRng {
    /// The current generator state.
    pub state: u64,
}

impl SeededRng {
    /// A generator whose output is fixed by `seed`.
    pub fn from_seed(seed: u64) -> (r: SeededRng)
        ensures
            r.state == seed,
    {
        SeededRng { state: seed }
    }
}

impl DelayRng for SeededRng {
    open spec fn deterministic(&self) -> bool {
        true
    }

    open spec fn next_value(&self, bound: u32) -> u32 {
        lcg_draw(self.state, bound)
    }

    open spec fn stepped(&self, bound: u32) -> Self {
        SeededRng { state: lcg_next(self.state) }
    }

    fn next_below(&mut self, bound: u32) -> (r: u32) {
        let next = self.state.wrapping_mul(LCG_MUL).wrapping_add(LCG_INC);
        self.state = next;
        (next % (bound as u64)) as u32
    }
}

#[verifier::external_type_specification]
#[verifier::external_body]
pub struct ExThreadRng(rand::rngs::ThreadRng);

/// Relies on `rand::thread_rng`: a handle to the calling thread's generator.
/// Nothing is promised of its output.
#[verifier::external_body]
fn fresh_thread_rng() -> rand::rngs::ThreadRng {
    rand::thread_rng()
}

/// Relies on `rand::Rng::gen_range` over the half-open range `0..bound`,
/// which samples uniformly from that range (and panics when it is empty, so
/// an empty range is ruled out here): the result is strictly below `bound`.
#[verifier::external_body]
fn thread_rng_below(rng: &mut rand::rngs::ThreadRng, bound: u32) -> (r: u32)
    requires
        bound > 0,
    ensures
        r < bound,
{
    rand::Rng::gen_range(rng, 0..bound)
}

/// The default randomness source, backed by the thread-local generator of
/// the `rand` crate.
pub struct DefaultRng {
    rng: rand::rngs::ThreadRng,
}

impl DefaultRng {
    /// A fresh handle to the thread-local generator.
    pub fn new() -> DefaultRng {
        DefaultRng { rng: fresh_thread_rng() }
    }
}

impl DelayRng for DefaultRng {
    open spec fn deterministic(&self) -> bool {
        false
    }

    open spec fn next_value(&self, bound: u32) -> u32 {
        0
    }

    open spec fn stepped(&self, bound: u32) -> Self {
        *self
    }

    fn next_below(&mut self, bound: u32) -> (r: u32) {
        thread_rng_below(&mut self.rng, bound)
    }
}

} // verus!
