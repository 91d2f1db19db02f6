//! The laws of the schedule, stated over its mathematical model: how many
//! values come out, the bounds they respect, the exact value under zero
//! jitter, determinism under a seeded generator, and the absorption of the
//! exhausted state.

use vstd::prelude::*;

verus! {

use vstd::arithmetic::mul::{lemma_mul_basics, lemma_mul_nonnegative};
use vstd::arithmetic::div_mod::lemma_div_by_multiple;
use vstd::arithmetic::power::pow;
use crate::backoff::{retry_limit, BackoffModel};
use crate::delay::{sat_nanos, MAX_DELAY_NANOS};
use crate::iterator::{
    base_delay, clamped, count_step, det_drawn, det_rng_after, emitted_delay, is_exhausted,
    raw_delay, sat_pow,
};
use crate::rng::{lcg_draw, lcg_next, SeededRng};

/// The cursor position after `pulls` pulls of a cursor that started at
/// zero: each pull takes one [`count_step`].
pub open spec fn count_after_pulls(retries: int, pulls: nat) -> int
    decreases pulls,
{
    if pulls == 0 {
        0
    } else {
        count_step(retries, count_after_pulls(retries, (pulls - 1) as nat))
    }
}

/// A fresh cursor produces exactly `retries + 1` (saturating) values: every
/// pull up to that limit advances the position by one and produces a value,
/// and every later pull leaves the cursor exhausted and produces none.
pub proof fn lemma_produces_exactly_retry_limit(retries: int, pulls: nat)
    requires
        0 <= retries,
    ensures
        count_after_pulls(retries, pulls) == if pulls <= retry_limit(retries) {
            pulls as int
        } else {
            retry_limit(retries)
        },
        is_exhausted(retries, count_after_pulls(retries, pulls)) <==> pulls >= retry_limit(
            retries,
        ),
    decreases pulls,
{
    if pulls > 0 {
        lemma_produces_exactly_retry_limit(retries, (pulls - 1) as nat);
    }
}

/// Exhaustion is absorbing: a pull made at the exhaustion point leaves the
/// cursor there, still exhausted.
pub proof fn lemma_exhaustion_absorbing(retries: int, count: int)
    requires
        is_exhausted(retries, count),
    ensures
        count_step(retries, count) == count,
        is_exhausted(retries, count_step(retries, count)),
{
}

/// Every emitted delay is at least `min`; and when a maximum no smaller
/// than `min` is configured, at most that maximum.  (A maximum below the
/// minimum is overridden by the final raise to `min`.)
pub proof fn lemma_emitted_delay_bounds(m: BackoffModel, index: nat, random: int)
    ensures
        emitted_delay(m, index, random) >= m.min,
        m.max matches Some(mx) ==> (m.min <= mx ==> emitted_delay(m, index, random) <= mx),
{
}

/// With zero jitter the jitter stage is the identity: the emitted value is
/// exactly `min * factor^index` (power and product saturating), clamped to
/// the configured bounds — provided the scale by 100 that carries the
/// jitter fractions stays representable.
pub proof fn lemma_zero_jitter_exact(m: BackoffModel, index: nat)
    requires
        m.jitter == 0,
        0 <= m.min,
        0 <= m.factor,
        base_delay(m, index) * 100 <= MAX_DELAY_NANOS,
    ensures
        raw_delay(m, index, 0) == base_delay(m, index),
        emitted_delay(m, index, 0) == clamped(m, base_delay(m, index)),
{
    let base = base_delay(m, index);
    assert(0 <= sat_pow(m.factor, index)) by {
        reveal(pow);
        if pow(m.factor, index) <= u32::MAX {
            lemma_pow_nonneg(m.factor, index);
        }
    }
    lemma_mul_nonnegative(m.min, sat_pow(m.factor, index));
    assert(0 <= base);
    lemma_mul_nonnegative(base, 100);
    assert(sat_nanos(base * 100) == base * 100);
    lemma_mul_basics(base * 100);
    assert(sat_nanos((base * 100) * 0) / 100 == 0);
    assert(sat_nanos(base * 100 + 0) == base * 100);
    lemma_div_by_multiple(base, 100);
}

/// `pow` of a non-negative base is non-negative.
proof fn lemma_pow_nonneg(b: int, e: nat)
    requires
        0 <= b,
    ensures
        0 <= pow(b, e),
    decreases e,
{
    reveal(pow);
    if e > 0 {
        lemma_pow_nonneg(b, (e - 1) as nat);
        lemma_mul_nonnegative(b, pow(b, (e - 1) as nat));
    }
}

/// The delay sequence a seeded cursor yields, one entry per pull: `Some`
/// of the emitted delay while the budget lasts, `None` after exhaustion.
pub open spec fn seeded_outputs(
    m: BackoffModel,
    count: int,
    state: u64,
    pulls: nat,
) -> Seq<Option<int>>
    decreases pulls,
{
    if pulls == 0 {
        Seq::empty()
    } else if is_exhausted(m.retries, count) {
        Seq::new(pulls, |i: int| None)
    } else {
        let drawn: int = if m.jitter == 0 {
            0
        } else {
            lcg_draw(state, (2 * m.jitter) as u32) as int
        };
        let state2: u64 = if m.jitter == 0 {
            state
        } else {
            lcg_next(state)
        };
        seq![Some(emitted_delay(m, count as nat, drawn))] + seeded_outputs(
            m,
            count + 1,
            state2,
            (pulls - 1) as nat,
        )
    }
}

/// Over the whole seeded output sequence: however many pulls are made, the
/// sequence holds one entry per pull, and the entry of pull `i` is a value
/// exactly while the budget lasts — a cursor started at `count` fills the
/// first `retries + 1` (saturating) minus `count` entries and no other.
pub proof fn lemma_seeded_outputs_some_iff(
    m: BackoffModel,
    count: int,
    state: u64,
    pulls: nat,
    i: int,
)
    requires
        0 <= m.retries,
        0 <= count <= retry_limit(m.retries),
        0 <= i < pulls,
    ensures
        seeded_outputs(m, count, state, pulls).len() == pulls,
        seeded_outputs(m, count, state, pulls)[i] is Some <==> count + i < retry_limit(m.retries),
    decreases pulls,
{
    if is_exhausted(m.retries, count) {
        assert(seeded_outputs(m, count, state, pulls)[i] is None);
    } else if i > 0 {
        let state2: u64 = if m.jitter == 0 {
            state
        } else {
            lcg_next(state)
        };
        lemma_seeded_outputs_some_iff(m, count + 1, state2, (pulls - 1) as nat, i - 1);
    } else {
        lemma_seeded_outputs_len(m, count + 1, if m.jitter == 0 {
            state
        } else {
            lcg_next(state)
        }, (pulls - 1) as nat);
    }
}

/// The seeded output sequence holds one entry per pull.
pub proof fn lemma_seeded_outputs_len(m: BackoffModel, count: int, state: u64, pulls: nat)
    ensures
        seeded_outputs(m, count, state, pulls).len() == pulls,
    decreases pulls,
{
    if pulls > 0 && !is_exhausted(m.retries, count) {
        let state2: u64 = if m.jitter == 0 {
            state
        } else {
            lcg_next(state)
        };
        lemma_seeded_outputs_len(m, count + 1, state2, (pulls - 1) as nat);
    }
}

/// Determinism of a seeded schedule, one step at a time: before exhaustion,
/// the head of the seeded output sequence is exactly the delay that a
/// deterministic generator in state `state` makes a cursor emit, and the
/// rest of the sequence continues from the advanced position and the
/// stepped generator state.
pub proof fn lemma_seeded_step(m: BackoffModel, count: int, state: u64, pulls: nat)
    requires
        pulls > 0,
        0 <= count,
        !is_exhausted(m.retries, count),
    ensures
        seeded_outputs(m, count, state, pulls)[0] == Some(
            emitted_delay(m, count as nat, det_drawn(SeededRng { state }, m.jitter)),
        ),
        seeded_outputs(m, count, state, pulls) == seq![
            seeded_outputs(m, count, state, pulls)[0],
        ] + seeded_outputs(
            m,
            count_step(m.retries, count),
            det_rng_after(SeededRng { state }, m.jitter).state,
            (pulls - 1) as nat,
        ),
{
}

} // verus!
