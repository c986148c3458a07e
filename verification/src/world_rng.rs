//! The world's source of chance.

use rand::rngs::StdRng;
use rand::Rng as RandRng;
use rand::SeedableRng;
use vstd::prelude::*;

verus! {

#[verifier::external_type_specification]
#[verifier::external_body]
pub struct ExStdRng(rand::rngs::StdRng);

/// The random number generator of a world. A world made twice from the same seed is
/// the same world.
pub struct Rng(pub StdRng);

/// A generator for the given seed.
///
/// Calls `rand::rngs::StdRng::seed_from_u64`, which makes a generator of any seed.
#[verifier::external_body]
fn std_rng_from_seed(seed: u64) -> (rng: StdRng) {
    StdRng::seed_from_u64(seed)
}

/// A whole number drawn from `low` up to, but not including, `high`.
///
/// Calls `rand::Rng::gen_range` with the range `low..high`, which gives a value of the
/// range and does not take an empty one.
#[verifier::external_body]
fn gen_range_isize(rng: &mut StdRng, low: isize, high: isize) -> (drawn: isize)
    requires
        low < high,
    ensures
        low <= drawn < high,
{
    rng.gen_range(low..high)
}

/// An index drawn from those below `len`.
///
/// Calls `rand::Rng::gen_range` with the range `0..len`, which gives a value of the
/// range and does not take an empty one.
#[verifier::external_body]
fn gen_range_usize(rng: &mut StdRng, len: usize) -> (drawn: usize)
    requires
        0 < len,
    ensures
        drawn < len,
{
    rng.gen_range(0..len)
}

/// The toss of a fair coin.
///
/// Calls `rand::Rng::gen_ratio(1, 2)`, which is true with one chance in two. Nothing
/// is claimed of the outcome.
#[verifier::external_body]
fn gen_half(rng: &mut StdRng) -> (heads: bool) {
    rng.gen_ratio(1, 2)
}

impl Rng {
    /// The generator of the world with the given seed.
    pub fn from_seed(seed: u64) -> (rng: Rng) {
        Rng(std_rng_from_seed(seed))
    }

    /// Draws a whole number from `low` up to, but not including, `high`.
    pub fn draw_between(&mut self, low: isize, high: isize) -> (drawn: isize)
        requires
            low < high,
        ensures
            low <= drawn < high,
    {
        gen_range_isize(&mut self.0, low, high)
    }

    /// Draws an index into a list of `len` items.
    pub fn draw_index(&mut self, len: usize) -> (drawn: usize)
        requires
            0 < len,
        ensures
            drawn < len,
    {
        gen_range_usize(&mut self.0, len)
    }

    /// Tosses a fair coin.
    pub fn toss(&mut self) -> (heads: bool) {
        gen_half(&mut self.0)
    }
}

} // verus!
