//! The selection strategy: picking one parent from a population.
//!
//! The engine only needs to know that whatever is picked is a member of the
//! population. The fitness-proportionate strategy this engine is run with
//! weighs each individual by a real-valued fitness, which is arithmetic on
//! floating-point numbers; that concrete strategy therefore lives with the
//! embedding application, which implements this trait.

use vstd::prelude::*;

use crate::individual::Individual;

verus! {

/// Picks one individual from a non-empty population, weighted by fitness.
pub trait SelectionMethod {
    /// One weighted draw against the population. The result is always a
    /// member of the population; which member comes back depends on the
    /// strategy and on the generator's state.
    fn select<'a, I: Individual>(
        &self,
        rng: &mut rand_chacha::ChaCha8Rng,
        population: &'a Vec<I>,
    ) -> (r: &'a I)
        requires
            population@.len() > 0,
        ensures
            exists|i: int| 0 <= i < population@.len() && *r == population@[i],
    ;
}

} // verus!
