//! The random source that seeds a grid.
//!
//! Nothing here is proved: these items state what is taken on trust from the
//! `rand` crate.

use vstd::prelude::*;

verus! {

/// `rand::rngs::ThreadRng`, the generator local to the calling thread. Its
/// state is opaque to the verifier.
#[verifier::external_type_specification]
#[verifier::external_body]
pub struct ExThreadRng(rand::rngs::ThreadRng);

/// Calls `rand::thread_rng`, which hands out the calling thread's generator,
/// seeded by the operating system. Nothing is claimed of the generator.
#[verifier::external_body]
pub(crate) fn thread_rng() -> rand::rngs::ThreadRng {
    rand::thread_rng()
}

/// Calls `rand::Rng::gen_ratio`, which draws `true` with a chance of
/// `numerator` in `denominator`.
///
/// `gen_ratio` panics on a zero denominator and on a numerator above the
/// denominator, so both are ruled out. Of the outcome only the two certain
/// cases are claimed: a ratio of one always draws `true`, a ratio of zero
/// always draws `false`. Any other ratio may draw either value.
#[verifier::external_body]
pub(crate) fn gen_ratio(
    rng: &mut rand::rngs::ThreadRng,
    numerator: u32,
    denominator: u32,
) -> (hit: bool)
    requires
        denominator > 0,
        numerator <= denominator,
    ensures
        numerator == denominator ==> hit,
        numerator == 0 ==> !hit,
{
    rand::Rng::gen_ratio(rng, numerator, denominator)
}

} // verus!
