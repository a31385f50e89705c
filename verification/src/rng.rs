//! The node's pseudo-random source.
//!
//! One generator is owned by the runner and passed by exclusive, short-lived
//! borrow into every effect construction that needs randomness.  ChaCha20 is
//! a pure stream cipher, so given a fixed seed the sequence of values drawn
//! is fixed, which is what makes a run of the reactor replayable.

use vstd::prelude::*;
use rand_chacha::rand_core::{RngCore, SeedableRng};

verus! {

#[verifier::external_type_specification]
#[verifier::external_body]
pub struct ExChaCha20Rng(rand_chacha::ChaCha20Rng);

/// The value at position `index` of the stream of `u64` draws that a
/// ChaCha20 generator built from `seed` yields.  The stream is a function of
/// the seed alone, so the name is well defined; no further property of the
/// values is assumed.
pub uninterp spec fn chacha_stream(seed: Seq<u8>, index: nat) -> u64;

/// The pseudo-random source threaded through effect construction: a ChaCha20
/// generator together with a ghost record of its seed and of how many values
/// it has yielded so far.
///
/// The fields are private; the only ways to advance the generator are the
/// methods below, which keep the ghost record in step with the generator.
pub struct NodeRng {
    inner: rand_chacha::ChaCha20Rng,
    seed: Ghost<Seq<u8>>,
    drawn: Ghost<nat>,
}

impl NodeRng {
    /// The seed this generator was built from.
    pub closed spec fn seed(&self) -> Seq<u8> {
        self.seed@
    }

    /// How many values this generator has yielded.
    pub closed spec fn drawn(&self) -> nat {
        self.drawn@
    }

    /// Relies on `ChaCha20Rng::from_seed` (`rand_core::SeedableRng`):
    /// deterministic construction of a generator positioned at the start of
    /// the seed's stream.
    #[verifier::external_body]
    fn chacha_from_seed(seed: [u8; 32]) -> rand_chacha::ChaCha20Rng {
        <rand_chacha::ChaCha20Rng as SeedableRng>::from_seed(seed)
    }

    /// Builds the pseudo-random source from a 32-byte seed.
    pub fn from_seed(seed: [u8; 32]) -> (r: NodeRng)
        ensures
            r.seed() == seed@,
            r.drawn() == 0,
    {
        NodeRng { inner: Self::chacha_from_seed(seed), seed: Ghost(seed@), drawn: Ghost(0) }
    }

    /// Draws the next pseudo-random value.
    ///
    /// Relies on `ChaCha20Rng::next_u64` (`rand_core::RngCore`): ChaCha20 is
    /// a pure stream cipher, so the value returned is the next element of
    /// the stream determined by the seed, and the generator advances by one
    /// position.
    #[verifier::external_body]
    pub fn next_u64(&mut self) -> (r: u64)
        ensures
            final(self).seed() == old(self).seed(),
            final(self).drawn() == old(self).drawn() + 1,
            r == chacha_stream(old(self).seed(), old(self).drawn()),
    {
        self.inner.next_u64()
    }
}

} // verus!
