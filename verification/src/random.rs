//! The uniform random source that all stochastic sampling consumes.
//!
//! [`Sampler`] wraps rand's `StdRng`: a deterministic generator for a fixed
//! seed and call order, which is what makes every event stream of the
//! library reproducible. Raw draws cross the boundary as plain integers;
//! everything derived from them (unit-interval values, the standard-normal
//! approximant) is computed in verified code, so nothing is assumed of a
//! draw beyond its type range.

use vstd::prelude::*;
use crate::fixed::{Fix, SCALE};

verus! {

#[verifier::external_type_specification]
#[verifier::external_body]
pub struct ExStdRng(rand::rngs::StdRng);

/// Relies on rand::SeedableRng::seed_from_u64 for StdRng: builds a
/// generator whose output stream is a deterministic function of the seed.
#[verifier::external_body]
fn std_rng_from_seed(seed: u64) -> rand::rngs::StdRng {
    <rand::rngs::StdRng as rand::SeedableRng>::seed_from_u64(seed)
}

/// Relies on rand::RngCore::next_u32 for StdRng: the generator's next
/// 32-bit output, uniform over all of `u32`. Nothing can be promised of a
/// single draw.
#[verifier::external_body]
fn std_rng_next_u32(rng: &mut rand::rngs::StdRng) -> (r: u32) {
    rand::RngCore::next_u32(rng)
}

/// A seeded uniform random source.
pub struct Sampler {
    rng: rand::rngs::StdRng,
}

impl Sampler {
    /// A source whose whole draw stream is fixed by `seed`.
    pub fn from_seed(seed: u64) -> Sampler {
        Sampler { rng: std_rng_from_seed(seed) }
    }

    /// The next raw 32-bit draw.
    pub fn next_u32(&mut self) -> u32 {
        std_rng_next_u32(&mut self.rng)
    }

    /// A uniform draw from `[0, 1)`: a raw 32-bit draw read directly as a
    /// fixed-point fraction.
    pub fn uniform_unit(&mut self) -> (r: Fix)
        ensures
            0 <= r.raw < SCALE as int,
    {
        let d = self.next_u32();
        Fix { raw: d as i64 }
    }

    /// A standard-normal draw by the Irwin-Hall approximant: the sum of
    /// twelve uniform draws on `[0, 1)`, shifted by 6, has mean 0 and unit
    /// variance. Every outcome lies in `[-6, 6]`: the tails beyond six
    /// standard deviations are absent and the density is piecewise
    /// polynomial rather than exactly Gaussian, a deliberate trade for a
    /// sampler whose every step is verified integer arithmetic.
    pub fn standard_normal(&mut self) -> (r: Fix)
        ensures
            -6 * (SCALE as int) <= r.raw <= 6 * (SCALE as int),
    {
        let mut acc: i64 = 0;
        let mut i: u64 = 0;
        while i < 12
            invariant
                i <= 12,
                0 <= acc <= i * (SCALE as int),
            decreases 12 - i,
        {
            let d = self.next_u32();
            acc = acc + d as i64;
            i = i + 1;
        }
        Fix { raw: acc - 6 * SCALE }
    }
}

} // verus!
