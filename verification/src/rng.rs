//! The pseudo-random source that every randomized operation draws from.
//!
//! The engine threads one caller-supplied, seedable ChaCha generator through
//! every call site, so that an identical seed and an identical call sequence
//! give identical results across runs. Each draw the engine itself makes is a
//! fair coin that consumes exactly one 64-bit value from the generator.

use vstd::prelude::*;

verus! {

/// Relies on rand_chacha::ChaCha8Rng, the seedable generator every
/// randomized operation draws from. The type is opaque here: the engine
/// only threads it through to its draws.
#[verifier::external_type_specification]
#[verifier::external_body]
pub struct ExChaCha8Rng(rand_chacha::ChaCha8Rng);

/// A fair coin flip.
///
/// Relies on rand::Rng::gen_ratio(rng, 1, 2), which samples
/// rand::distributions::Bernoulli::from_ratio(1, 2): it draws one 64-bit
/// value v from the generator and returns v < 2^63, the same draw a fair
/// gen_bool makes. Nothing is promised of the result: it depends on the
/// generator's state.
#[verifier::external_body]
pub(crate) fn coin_flip(rng: &mut rand_chacha::ChaCha8Rng) -> (r: bool) {
    rand::Rng::gen_ratio(rng, 1, 2)
}

} // verus!
