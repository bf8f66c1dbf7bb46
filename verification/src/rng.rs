//! The one place the library touches randomness: drawing the size of an
//! animation chunk.

use rand::Rng;
use vstd::prelude::*;

verus! {

#[verifier::external_type_specification]
#[verifier::external_body]
pub struct ExSmallRng(rand::rngs::SmallRng);

/// Relies on rand's `Rng::gen_range` over `1..=max`: the sample lies in the
/// requested range, which is non-empty since `max >= 1`. Nothing more is
/// assumed of a random draw.
#[verifier::external_body]
pub(crate) fn anim_chunk(rng: &mut rand::rngs::SmallRng, max: u64) -> (r: u64)
    requires
        max >= 1,
    ensures
        1 <= r <= max,
{
    rng.gen_range(1..=max)
}

} // verus!
