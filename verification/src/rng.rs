//! Source of randomness for the simulation: sound-variant picks, spawn
//! angles, and rock sprite choices. Wraps a small fast generator; nothing is
//! promised of any drawn value beyond its range, so every caller is verified
//! for every outcome.

use vstd::prelude::*;

verus! {

/// The small fast pseudo-random generator the simulation draws from.
#[verifier::external_type_specification]
#[verifier::external_body]
pub struct ExSmallRng(rand::rngs::SmallRng);

/// Owns the generator state for one simulation run.
pub struct Randomizer {
    rng: rand::rngs::SmallRng,
}

impl Randomizer {
    /// Relies on `SeedableRng::from_entropy`: seeds a fresh generator from
    /// operating-system entropy. Nothing is known of the seed.
    #[verifier::external_body]
    fn from_entropy() -> Self {
        Randomizer { rng: <rand::rngs::SmallRng as rand::SeedableRng>::from_entropy() }
    }

    /// Relies on `Rng::gen_range`: returns a value drawn uniformly from
    /// `lo..hi`, and panics only when the range is empty, which the
    /// precondition rules out. Only the range of the result is promised;
    /// which value comes back is left open, so callers hold for every draw.
    #[verifier::external_body]
    pub(crate) fn gen_range_i64(&mut self, lo: i64, hi: i64) -> (r: i64)
        requires
            lo < hi,
        ensures
            lo <= r < hi,
    {
        rand::Rng::gen_range(&mut self.rng, lo..hi)
    }

    /// An even-odds draw, as used to pick between the two player-hit sound
    /// variants.
    pub(crate) fn coin(&mut self) -> bool {
        self.gen_range_i64(0, 2) == 1
    }
}

impl Default for Randomizer {
    fn default() -> Self {
        Randomizer::from_entropy()
    }
}

} // verus!
