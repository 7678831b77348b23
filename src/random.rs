//! The engine's random generator: rand's standard generator, together with the
//! seed it was made from and how many numbers have been drawn from it.
use vstd::prelude::*;

use rand::rngs::StdRng;
use rand::{RngCore, SeedableRng};

verus! {

/// rand's standard generator, held opaque.
#[verifier::external_type_specification]
#[verifier::external_body]
pub struct ExStdRng(StdRng);

/// The number at position `k` (counted from 0) that `next_u32` gives on a
/// `StdRng` made by `seed_from_u64(seed)`.
pub uninterp spec fn seeded_u32(seed: u64, k: nat) -> u32;

/// A generator whose output is fixed by its seed and the count of numbers
/// drawn so far.
pub struct SeededRng {
    rng: StdRng,
    seed: Ghost<u64>,
    drawn: Ghost<nat>,
}

impl SeededRng {
    /// The seed the generator was made from.
    pub closed spec fn seed(&self) -> u64 {
        self.seed@
    }

    /// How many numbers have been drawn since seeding.
    pub closed spec fn drawn(&self) -> nat {
        self.drawn@
    }

    /// Relies on rand's `SeedableRng::seed_from_u64` for `StdRng`: a generator
    /// whose output depends on `seed` alone, with nothing drawn yet.
    #[verifier::external_body]
    pub(crate) fn from_seed(seed: u64) -> (r: Self)
        ensures
            r.seed() == seed,
            r.drawn() == 0,
    {
        SeededRng { rng: StdRng::seed_from_u64(seed), seed: Ghost(seed), drawn: Ghost(0) }
    }

    /// Relies on rand's `RngCore::next_u32` for `StdRng`: the next number of the
    /// generator's sequence, which the seed and the count drawn so far fix.
    #[verifier::external_body]
    pub(crate) fn next_u32(&mut self) -> (r: u32)
        ensures
            r == seeded_u32(old(self).seed(), old(self).drawn()),
            final(self).seed() == old(self).seed(),
            final(self).drawn() == old(self).drawn() + 1,
    {
        self.rng.next_u32()
    }
}

} // verus!
