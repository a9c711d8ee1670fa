//! The crossover strategy: combining two parent chromosomes into one child.
//!
//! The uniform strategy flips a fair coin once per gene position, in position
//! order, and takes the gene from the first parent on one outcome and from
//! the second on the other.

use vstd::prelude::*;

use crate::chromosome::Chromosome;
use crate::rng::coin_flip;

verus! {

/// Combines two chromosomes of equal length into one child of that length.
pub trait CrossoverMethod {
    fn crossover(
        &self,
        rng: &mut rand_chacha::ChaCha8Rng,
        parent_a: &Chromosome,
        parent_b: &Chromosome,
    ) -> (child: Chromosome)
        requires
            parent_a@.len() == parent_b@.len(),
        ensures
            child@.len() == parent_a@.len(),
            forall|i: int|
                0 <= i < child@.len() ==> child@[i] == parent_a@[i] || child@[i] == parent_b@[i],
    ;
}

/// Uniform crossover: each gene of the child comes from one of the parents,
/// chosen independently per position by a fair coin.
pub struct UniformCrossover;

impl UniformCrossover {
    pub fn new() -> (r: UniformCrossover)
        ensures
            r == UniformCrossover,
    {
        UniformCrossover
    }
}

impl Default for UniformCrossover {
    fn default() -> (r: UniformCrossover)
        ensures
            r == UniformCrossover,
    {
        UniformCrossover
    }
}

impl CrossoverMethod for UniformCrossover {
    /// Consumes exactly one coin flip per gene position, in position order.
    fn crossover(
        &self,
        rng: &mut rand_chacha::ChaCha8Rng,
        parent_a: &Chromosome,
        parent_b: &Chromosome,
    ) -> (child: Chromosome) {
        let n = parent_a.len();
        let mut genes: Vec<u32> = Vec::new();
        for i in 0..n
            invariant
                n == parent_a@.len(),
                n == parent_b@.len(),
                genes@.len() == i,
                forall|j: int|
                    0 <= j < i ==> genes@[j] == parent_a@[j] || genes@[j] == parent_b@[j],
        {
            let gene = if coin_flip(rng) {
                parent_a.gene(i)
            } else {
                parent_b.gene(i)
            };
            genes.push(gene);
        }
        Chromosome::new(genes)
    }
}

} // verus!
