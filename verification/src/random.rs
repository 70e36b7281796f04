use rand::rngs::SmallRng;
use rand::{Rng, SeedableRng};
use vstd::prelude::*;

verus! {

/// The generator behind the random-number instruction, `rand::rngs::SmallRng`.
/// Verus sees nothing inside it.
#[verifier::external_type_specification]
#[verifier::external_body]
pub struct ExternalSmallRng(SmallRng);

/// Calls `SmallRng::seed_from_u64` (the `SeedableRng` method) of `rand`.
/// Nothing is claimed of the generator that comes back: rand documents that
/// `SmallRng`'s algorithm depends on the platform and may change between
/// versions, so the generator is not named as a function of the seed.
#[verifier::external_body]
pub(crate) fn seeded_generator(seed: u64) -> (g: SmallRng) {
    SmallRng::seed_from_u64(seed)
}

/// Calls `Rng::gen::<u8>` of `rand` on the generator, which advances it.
/// Nothing is claimed of the byte or of the generator's new state: any byte
/// can come back, and the next state is opaque.
#[verifier::external_body]
pub(crate) fn next_random_byte(g: &mut SmallRng) -> (b: u8) {
    g.gen::<u8>()
}

} // verus!
