//! The gameplay random stream.
//!
//! One long-lived, seedable generator drives every gameplay draw.  The raw
//! 64-bit draws come from the `rand` crate and nothing is assumed about
//! them; the derived draws (a fixed-point unit sample, a bounded integer)
//! are ordinary verified code whose contracts bound the result for every
//! possible raw draw.

use vstd::prelude::*;

verus! {

#[verifier::external_type_specification]
#[verifier::external_body]
pub struct ExStdRng(rand::rngs::StdRng);

/// Relies on rand's `StdRng::from_entropy`: a generator freshly seeded
/// from the operating system's entropy source.  Nothing is promised of it.
#[verifier::external_body]
fn stdrng_from_entropy() -> rand::rngs::StdRng {
    <rand::rngs::StdRng as rand::SeedableRng>::from_entropy()
}

/// Relies on rand's `SeedableRng::seed_from_u64`: a generator determined
/// by the given seed.  Nothing is promised of the values it will draw.
#[verifier::external_body]
fn stdrng_seed_from_u64(seed: u64) -> rand::rngs::StdRng {
    <rand::rngs::StdRng as rand::SeedableRng>::seed_from_u64(seed)
}

/// Relies on rand's `RngCore::next_u64`: one raw 64-bit draw, advancing
/// the generator.  Nothing is promised of the value.
#[verifier::external_body]
fn stdrng_next_u64(r: &mut rand::rngs::StdRng) -> u64 {
    <rand::rngs::StdRng as rand::RngCore>::next_u64(r)
}

/// The seedable stream of gameplay randomness.
pub struct RandomStream {
    rng: rand::rngs::StdRng,
}

impl RandomStream {
    /// A stream seeded from the host's entropy source.
    pub fn from_entropy() -> RandomStream {
        RandomStream { rng: stdrng_from_entropy() }
    }

    /// A stream reproducibly seeded from a 64-bit key.
    pub fn from_seed(seed: u64) -> RandomStream {
        RandomStream { rng: stdrng_seed_from_u64(seed) }
    }

    /// One raw 64-bit draw, used as a reseed key for shape generation.
    pub fn next_u64(&mut self) -> u64 {
        stdrng_next_u64(&mut self.rng)
    }

    /// A draw from the unit interval in fixed point, reduced from a raw
    /// draw: a value in `[0, 1000)`.
    pub fn next_unit(&mut self) -> (r: i64)
        ensures
            0 <= r < 1000,
    {
        let raw: u64 = self.next_u64();
        (raw % 1000) as i64
    }

    /// An integer in `[lo, hi)`, reduced from a raw draw; near-uniform
    /// (the reduction bias is negligible for game-sized ranges).
    pub fn next_range(&mut self, lo: u64, hi: u64) -> (r: u64)
        requires
            lo < hi,
        ensures
            lo <= r < hi,
    {
        let raw: u64 = self.next_u64();
        lo + raw % (hi - lo)
    }

    /// An angle in `[0, TURN)` microturns, reduced from a raw draw.
    pub fn next_angle(&mut self) -> (r: i64)
        ensures
            crate::trig::angle_ok(r as int),
    {
        let raw: u64 = self.next_u64();
        (raw % 1_000_000) as i64
    }

    /// A fair coin.
    pub fn next_bool(&mut self) -> bool {
        let raw: u64 = self.next_u64();
        raw % 2 == 0
    }
}

} // verus!
