//! Randomness for spawning and shot spread, drawn from a caller-supplied
//! `rand::rngs::StdRng` so that every simulation is reproducible from its
//! seed. The draws go through thin wrappers whose contracts state only what
//! `rand` documents: a ranged draw lands in its range, and nothing is
//! promised of a coin flip.

use vstd::prelude::*;

verus! {

#[verifier::external_type_specification]
#[verifier::external_body]
pub struct ExStdRng(rand::rngs::StdRng);

/// Relies on rand::Rng::gen_range over `low..high`: the draw is uniform in
/// `[low, high)`, and the call panics only on an empty range, which the
/// precondition rules out.
#[verifier::external_body]
pub(crate) fn rng_range(rng: &mut rand::rngs::StdRng, low: i64, high: i64) -> (r: i64)
    requires
        low < high,
    ensures
        low <= r < high,
{
    rand::Rng::gen_range(rng, low..high)
}

/// Relies on rand::Rng::gen for `bool`: a fair coin flip; nothing is
/// promised of the outcome.
#[verifier::external_body]
pub(crate) fn rng_flip(rng: &mut rand::rngs::StdRng) -> bool {
    rand::Rng::gen::<bool>(rng)
}

} // verus!
