//! The uniform random source borrowed for the duration of a draw.
//!
//! The sampler needs one capability: 64 uniform bits per call. Any
//! generator can stand behind [`UniformSource`]; the crate ships one
//! implementation backed by the ChaCha generator, seeded explicitly so
//! that runs are reproducible. Reduction of the 64 bits to a draw below
//! a bound is verified code, not part of the source.

use vstd::prelude::*;

verus! {

/// A borrowed generator of uniform 64-bit integers.
///
/// Nothing is promised of the value: every consumer of a draw is verified
/// for every value the source may hand back.
pub trait UniformSource {
    /// The next 64 uniform bits of the source.
    fn next_u64(&mut self) -> u64;
}

/// Reduce 64 uniform bits to a draw strictly below `bound` by the
/// widening-multiply method: the 64 bits index one of `2^64` lanes, and
/// the lane is scaled down to `[0, bound)`.
pub fn draw_below<S: UniformSource>(source: &mut S, bound: u64) -> (u: u64)
    requires
        bound >= 1,
    ensures
        u < bound,
{
    let x = source.next_u64();
    proof {
        assert(x as int * bound as int <= 0xffff_ffff_ffff_ffff * bound) by (nonlinear_arith)
            requires
                x <= 0xffff_ffff_ffff_ffff,
                bound >= 1,
        ;
    }
    let wide: u128 = (x as u128) * (bound as u128);
    proof {
        assert(wide >> 64u128 == wide / 0x1_0000_0000_0000_0000u128) by (bit_vector);
        assert(wide / 0x1_0000_0000_0000_0000 < bound) by (nonlinear_arith)
            requires
                wide <= 0xffff_ffff_ffff_ffffu128 * (bound as u128),
                bound >= 1,
        ;
    }
    let u = (wide >> 64u128) as u64;
    u
}

#[verifier::external_type_specification]
#[verifier::external_body]
pub struct ExChaCha20Rng(rand_chacha::ChaCha20Rng);

/// A ChaCha generator seeded from a `u64`, usable as a [`UniformSource`].
///
/// Seeded identically, two values of this type hand back identical
/// streams of bits.
pub struct ChaChaSource {
    rng: rand_chacha::ChaCha20Rng,
}

impl ChaChaSource {
    /// Relies on `rand_core::SeedableRng::seed_from_u64`: builds a
    /// generator whose stream is a function of the seed alone.
    #[verifier::external_body]
    pub fn from_seed_u64(seed: u64) -> ChaChaSource {
        ChaChaSource { rng: <rand_chacha::ChaCha20Rng as rand::SeedableRng>::seed_from_u64(seed) }
    }
}

/// Relies on `rand_core::RngCore::next_u64` of the ChaCha generator:
/// the next 64 bits of its stream.
#[verifier::external_body]
fn chacha_next_u64(rng: &mut rand_chacha::ChaCha20Rng) -> u64 {
    rand::RngCore::next_u64(rng)
}

impl UniformSource for ChaChaSource {
    fn next_u64(&mut self) -> u64 {
        chacha_next_u64(&mut self.rng)
    }
}

} // verus!
