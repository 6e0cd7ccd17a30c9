use vstd::prelude::*;
use rand::rngs::StdRng;
use rand::Rng;
use rand::SeedableRng;

verus! {

/// Seed of the stream that recolours white-origin pixels.
pub const WHITE_SEED: u64 = 0;

/// Seed of the stream that recolours black-origin pixels.
pub const BLACK_SEED: u64 = 12415;

#[verifier::external_type_specification]
#[verifier::external_body]
pub struct ExStdRng(StdRng);

/// The `i`-th 64-bit word produced by a `rand::rngs::StdRng` that was seeded
/// with `seed` through `SeedableRng::seed_from_u64`. The generator is a
/// deterministic stream cipher (ChaCha with 12 rounds), so this word is a
/// function of the seed and the draw index alone.
pub uninterp spec fn stream_word(seed: u64, i: nat) -> u64;

/// The `i`-th boolean drawn from the stream seeded with `seed`: a fair coin
/// that lands true exactly when the drawn word lies in the lower half of the
/// 64-bit range, which is how rand's `random_bool(0.5)` decides a draw
/// (one word consumed, compared against `1 << 63`).
pub open spec fn stream_bit(seed: u64, i: nat) -> bool {
    stream_word(seed, i) < 0x8000_0000_0000_0000u64
}

/// A seeded pseudorandom boolean stream, with ghost bookkeeping of its seed
/// and of how many draws it has made since construction.
pub struct Stream {
    rng: StdRng,
    seed: Ghost<u64>,
    pos: Ghost<nat>,
}

/// Relies on `SeedableRng::seed_from_u64` for `rand::rngs::StdRng`: seeding
/// is deterministic, so every word drawn later is fixed by the seed and the
/// draw's position, which `Stream` records beside the generator.
#[verifier::external_body]
fn seeded_rng(seed: u64) -> StdRng {
    StdRng::seed_from_u64(seed)
}

impl Stream {
    /// The seed this stream was constructed with.
    pub closed spec fn seed(self) -> u64 {
        self.seed@
    }

    /// How many draws the stream has made since construction.
    pub closed spec fn pos(self) -> nat {
        self.pos@
    }

    /// A fresh stream: its generator is seeded with `seed` and has drawn
    /// nothing yet.
    pub fn new(seed: u64) -> (s: Stream)
        ensures
            s.seed() == seed,
            s.pos() == 0,
    {
        Stream { rng: seeded_rng(seed), seed: Ghost(seed), pos: Ghost(0nat) }
    }

    /// Relies on `rand::Rng::next_u64` for `StdRng`: each call hands out the
    /// next word of the sequence that the seed determines.
    #[verifier::external_body]
    fn next_word(&mut self) -> (w: u64)
        ensures
            final(self).seed() == old(self).seed(),
            final(self).pos() == old(self).pos() + 1,
            w == stream_word(old(self).seed(), old(self).pos()),
    {
        self.rng.next_u64()
    }

    /// Draws one boolean and advances the stream by exactly one step.
    pub fn sample_bool(&mut self) -> (b: bool)
        ensures
            final(self).seed() == old(self).seed(),
            final(self).pos() == old(self).pos() + 1,
            b == stream_bit(old(self).seed(), old(self).pos()),
    {
        let w = self.next_word();
        w < 0x8000_0000_0000_0000u64
    }
}

} // verus!
