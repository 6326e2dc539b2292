use vstd::prelude::*;

use rand::rngs::StdRng;
use rand::{Rng, SeedableRng};

verus! {

/// rand's standard seedable generator, carried through the simulation as an opaque value.
#[verifier::external_type_specification]
#[verifier::external_body]
pub struct ExStdRng(StdRng);

/// Relies on rand's `SeedableRng::seed_from_u64` for `StdRng`: builds the generator
/// from a 64-bit seed. Nothing is stated of the stream it yields.
#[verifier::external_body]
pub(crate) fn seeded(seed: u64) -> (r: StdRng) {
    StdRng::seed_from_u64(seed)
}

/// Relies on rand's `Rng::gen_range` over the half-open range `lo..hi`: it panics only
/// when the range is empty, and otherwise returns a value inside it.
#[verifier::external_body]
pub(crate) fn draw_below(rng: &mut StdRng, lo: i32, hi: i32) -> (r: i32)
    requires
        lo < hi,
    ensures
        lo <= r < hi,
{
    rng.gen_range(lo..hi)
}

} // verus!
