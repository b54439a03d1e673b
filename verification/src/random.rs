//! The random source that the handlers and games draw from.

use rand::rngs::StdRng;
use rand::Rng;
use rand::SeedableRng;
use vstd::prelude::*;

verus! {

/// The generator `rand::rngs::StdRng`. Its state is not modelled: nothing
/// is known of a draw but what the drawing function promises of every one.
#[verifier::external_type_specification]
#[verifier::external_body]
pub struct ExStdRng(StdRng);

/// Trusted: calls `Rng::random_range` on `0..len`. The draw is some index
/// below `len`; which one is left open. An empty range, on which the call
/// panics, is excluded.
#[verifier::external_body]
pub(crate) fn random_index(rng: &mut StdRng, len: usize) -> (index: usize)
    requires
        len > 0,
    ensures
        index < len,
{
    rng.random_range(0..len)
}

/// Trusted: calls `SeedableRng::from_rng`, which seeds a new generator
/// from draws of `rng`. Nothing is claimed of either generator.
#[verifier::external_body]
pub(crate) fn split_off(rng: &mut StdRng) -> (child: StdRng) {
    StdRng::from_rng(rng)
}

} // verus!
