//! The mutation strategy: perturbing a freshly bred chromosome in place.
//!
//! Every strategy keeps the gene count: mutation changes gene values, never
//! the shape of the chromosome. The concrete strategy this engine is run
//! with adds a signed, randomly scaled real offset to each gene it touches,
//! which is arithmetic on floating-point numbers; it therefore lives with
//! the embedding application, which implements this trait.

use vstd::prelude::*;

use crate::chromosome::Chromosome;

verus! {

/// Perturbs a chromosome in place, preserving its gene count.
pub trait MutationMethod {
    fn mutate(&self, rng: &mut rand_chacha::ChaCha8Rng, child: &mut Chromosome)
        ensures
            final(child)@.len() == old(child)@.len(),
    ;
}

} // verus!
