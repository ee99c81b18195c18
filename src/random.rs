//! The seeded generator that breaks ties between equally good moves.
use rand::{Rng, SeedableRng};
use rand_pcg::Lcg64Xsh32;
use vstd::prelude::*;

verus! {

#[verifier::external_type_specification]
#[verifier::external_body]
pub struct ExLcg64Xsh32(Lcg64Xsh32);

/// Relies on rand_pcg's `Lcg64Xsh32` (PCG32) and its `SeedableRng::seed_from_u64`:
/// a generator whose whole output is fixed by `seed`.
#[verifier::external_body]
pub(crate) fn seeded_generator(seed: u64) -> Lcg64Xsh32 {
    Lcg64Xsh32::seed_from_u64(seed)
}

/// Relies on rand's `Rng::gen_range(low, high)`, which returns a value in
/// `[low, high)`: here 0 or 1.
#[verifier::external_body]
pub(crate) fn draw_bit(rng: &mut Lcg64Xsh32) -> (r: u32)
    ensures
        r < 2,
{
    rng.gen_range(0u32, 2u32)
}

} // verus!
