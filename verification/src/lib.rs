//! Exponential backoff delays with randomized jitter.
//!
//! A `Backoff` value holds the retry budget and the bounds of the delay
//! schedule; an `Iter` cursor walks the schedule, producing one delay per
//! retry attempt until the budget is spent.  All duration arithmetic is
//! saturating, so pathological configurations yield clamped delays rather
//! than panics.

pub mod backoff;
pub mod delay;
pub mod iterator;
pub mod laws;
pub mod rng;

pub use backoff::Backoff;
pub use delay::Delay;
pub use iterator::Iter;
pub use rng::{DefaultRng, DelayRng, SeededRng};
