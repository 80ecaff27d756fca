//! The source of the random numbers behind a noise signal.
//!
//! A seeded generator yields a fixed sequence of numbers: the sequence
//! depends on the seed alone, and each draw takes its first number away.
//! Contracts speak of that sequence, not of how the generator computes it.
use vstd::prelude::*;
use rand::{Rng, SeedableRng};
use rand_xorshift::XorShiftRng;

verus! {

/// The xorshift generator of the `rand_xorshift` crate. Nothing is known of
/// its state but the numbers that it has yet to yield.
#[verifier::external_type_specification]
#[verifier::external_body]
pub struct ExXorShiftRng(XorShiftRng);

/// What a generator holds: the numbers that it has yet to yield, by the
/// number of draws that come before each.
pub uninterp spec fn rng_stream(rng: XorShiftRng) -> Map<nat, u32>;

/// The numbers that a generator built from `seed` yields, by the number of
/// draws that come before each.
pub uninterp spec fn seeded_stream(seed: Seq<u8>) -> Map<nat, u32>;

/// A seeded generator of uniform random numbers.
pub struct NoiseSource {
    rng: XorShiftRng,
}

/// Calls `XorShiftRng::from_seed`, which builds a generator from sixteen
/// bytes. The claim: what the generator will yield depends on those bytes
/// alone. Which numbers those are is not said.
#[verifier::external_body]
fn rng_from_seed(seed: [u8; 16]) -> (rng: XorShiftRng)
    ensures
        rng_stream(rng) == seeded_stream(seed@),
{
    XorShiftRng::from_seed(seed)
}

/// Calls `Rng::gen` for a `u32`, which for this generator is its
/// `next_u32`. The claim: the call returns the first of the numbers that
/// the generator had yet to yield, and the others move up by one place.
#[verifier::external_body]
fn rng_gen(rng: &mut XorShiftRng) -> (x: u32)
    ensures
        x == rng_stream(*old(rng))[0],
        forall|i: nat| #[trigger] rng_stream(*final(rng))[i] == rng_stream(*old(rng))[(i + 1) as nat],
{
    rng.gen::<u32>()
}

impl NoiseSource {
    /// The numbers that the source has yet to yield, by the number of draws
    /// that come before each.
    pub closed spec fn stream(&self) -> Map<nat, u32> {
        rng_stream(self.rng)
    }

    /// A generator that starts from `seed`: it will yield the numbers that
    /// belong to that seed, so two sources of one seed yield the same.
    pub fn new(seed: [u8; 16]) -> (source: Self)
        ensures
            source.stream() == seeded_stream(seed@),
    {
        NoiseSource { rng: rng_from_seed(seed) }
    }

    /// The next `n` numbers of the generator, in the order in which it
    /// yields them; the numbers after those are what it yields next.
    pub fn draw(&mut self, n: usize) -> (draws: Vec<u32>)
        ensures
            draws@.len() == n,
            forall|j: int| 0 <= j < n ==> draws@[j] == old(self).stream()[j as nat],
            forall|i: nat| #[trigger] final(self).stream()[i] == old(self).stream()[(i + n) as nat],
    {
        let mut draws: Vec<u32> = Vec::new();
        let mut k: usize = 0;
        while k < n
            invariant
                k <= n,
                draws@.len() == k,
                forall|j: int| 0 <= j < k ==> draws@[j] == old(self).stream()[j as nat],
                forall|i: nat| #[trigger] self.stream()[i] == old(self).stream()[(i + k) as nat],
            decreases n - k,
        {
            let ghost before = self.stream();
            let x = rng_gen(&mut self.rng);
            assert(x == before[0]);
            assert(before[0] == old(self).stream()[(0 + k) as nat]);
            assert forall|i: nat| #[trigger] self.stream()[i] == old(self).stream()[(i + k + 1) as nat] by {
                assert(self.stream()[i] == before[(i + 1) as nat]);
                assert(before[(i + 1) as nat] == old(self).stream()[((i + 1) as nat + k) as nat]);
            }
            draws.push(x);
            k += 1;
        }
        draws
    }
}

} // verus!
