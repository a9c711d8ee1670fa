//! The driver of one generational step.
//!
//! The algorithm owns one selection, one crossover and one mutation strategy.
//! For each slot of the new generation it draws two parents with replacement,
//! crosses their chromosomes, mutates the child in place and wraps it in a
//! fresh individual. The old population is discarded wholesale: every step
//! builds a same-size replacement.

use vstd::prelude::*;

use crate::crossover::CrossoverMethod;
use crate::individual::Individual;
use crate::mutation::MutationMethod;
use crate::selection::SelectionMethod;

verus! {

/// Whether every individual of the population carries as many genes as the
/// first one: the shape every crossover strategy needs of its two parents.
pub open spec fn uniform_gene_count<I: Individual>(population: Seq<I>) -> bool {
    forall|i: int|
        0 <= i < population.len() ==> (#[trigger] population[i].genes_spec()).len()
            == population[0].genes_spec().len()
}

/// One generational step over an arbitrary population of individuals.
pub struct GeneticAlgorithm<S, C, M> {
    selection_method: S,
    crossover_method: C,
    mutation_method: M,
}

impl<S: SelectionMethod, C: CrossoverMethod, M: MutationMethod> GeneticAlgorithm<S, C, M> {
    /// The selection strategy the driver owns.
    pub closed spec fn selection_spec(&self) -> S {
        self.selection_method
    }

    /// The crossover strategy the driver owns.
    pub closed spec fn crossover_spec(&self) -> C {
        self.crossover_method
    }

    /// The mutation strategy the driver owns.
    pub closed spec fn mutation_spec(&self) -> M {
        self.mutation_method
    }

    pub fn new(selection_method: S, crossover_method: C, mutation_method: M) -> (r: Self)
        ensures
            r.selection_spec() == selection_method,
            r.crossover_spec() == crossover_method,
            r.mutation_spec() == mutation_method,
    {
        GeneticAlgorithm { selection_method, crossover_method, mutation_method }
    }

    /// Breeds the next generation: a population of the same size, each slot
    /// filled by selecting two parents with replacement, crossing them and
    /// mutating the child. Output order is the order the slots are filled
    /// in; every child carries as many genes as the individuals it was bred
    /// from.
    ///
    /// A caller owes a non-empty population whose chromosomes all have one
    /// length, as individuals bred from one topology do: any two of them
    /// may be drawn as parents, and crossover is owed parents of equal
    /// length.
    pub fn evolve<I: Individual>(
        &self,
        rng: &mut rand_chacha::ChaCha8Rng,
        population: &Vec<I>,
    ) -> (next: Vec<I>)
        requires
            population@.len() > 0,
            uniform_gene_count(population@),
        ensures
            next@.len() == population@.len(),
            forall|i: int|
                0 <= i < next@.len() ==> (#[trigger] next@[i].genes_spec()).len()
                    == population@[0].genes_spec().len(),
    {
        let n = population.len();
        let mut next: Vec<I> = Vec::new();
        for k in 0..n
            invariant
                n == population@.len(),
                population@.len() > 0,
                uniform_gene_count(population@),
                next@.len() == k,
                forall|i: int|
                    0 <= i < next@.len() ==> (#[trigger] next@[i].genes_spec()).len()
                        == population@[0].genes_spec().len(),
        {
            let parent_a = self.selection_method.select(rng, population);
            let parent_b = self.selection_method.select(rng, population);
            let mut child = self.crossover_method.crossover(
                rng,
                parent_a.chromosome(),
                parent_b.chromosome(),
            );
            self.mutation_method.mutate(rng, &mut child);
            next.push(I::create(child));
        }
        next
    }
}

} // verus!
