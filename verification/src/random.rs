//! Random draws for the scenarios that scatter their bodies.
//!
//! The generator is the thread-local one of the `rand` crate. Nothing is
//! known of a draw beyond the range it was asked for, and the scenarios'
//! contracts promise only what holds of every draw.

use vstd::prelude::*;

verus! {

/// The thread-local generator of the `rand` crate, carried as it is.
#[verifier::external_type_specification]
#[verifier::external_body]
pub struct ExThreadRng(rand::rngs::ThreadRng);

/// `rand::thread_rng` hands out the calling thread's generator, which the
/// system seeds. Nothing is claimed of it. On its first use in a thread it
/// aborts where the system has no entropy to give, as any code does where
/// the machine fails it.
pub assume_specification[ rand::thread_rng ]() -> (rng: rand::rngs::ThreadRng);

/// Draws a whole number through `rand::Rng::gen_range` with the half-open
/// range `low..high`. The crate documents that the value lies in the range
/// and that an empty range panics, so an empty range is left out.
#[verifier::external_body]
pub(crate) fn draw(rng: &mut rand::rngs::ThreadRng, low: i32, high: i32) -> (value: i32)
    requires
        low < high,
    ensures
        low <= value < high,
{
    rand::Rng::gen_range(rng, low..high)
}

/// Picks one of the given numbers through `rand::seq::SliceRandom::choose`.
/// The crate returns nothing for an empty slice and otherwise one element of
/// the slice.
#[verifier::external_body]
pub(crate) fn pick(rng: &mut rand::rngs::ThreadRng, choices: &Vec<i32>) -> (picked: Option<i32>)
    ensures
        picked.is_some() == (choices@.len() > 0),
        picked matches Some(value) ==> choices@.contains(value),
{
    rand::seq::SliceRandom::choose(choices.as_slice(), rng).copied()
}

} // verus!
