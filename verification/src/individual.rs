//! The capability contract between the engine and an embedding application.
//!
//! An individual pairs a fitness value with the chromosome it was graded on.
//! The engine never looks inside an implementation: it reads the chromosome,
//! hands the fitness to a selection strategy, and wraps each freshly bred
//! chromosome in a new individual. A fresh individual has no meaningful
//! fitness until the owning environment re-evaluates it.

use vstd::prelude::*;

use crate::chromosome::Chromosome;

verus! {

/// One candidate solution paired with its fitness, implemented per
/// application.
pub trait Individual: Sized {
    /// The gene sequence this individual carries, as a mathematical value.
    spec fn genes_spec(&self) -> Seq<u32>;

    /// The fitness this individual carries, as a mathematical value: the
    /// bit pattern of the non-negative 32-bit real the embedding
    /// environment graded it with.
    spec fn fitness_spec(&self) -> u32;

    /// The individual's fitness. The engine only passes it to a selection
    /// strategy, which weighs individuals by it.
    fn fitness(&self) -> (r: u32)
        ensures
            r == self.fitness_spec(),
    ;

    /// The chromosome this individual was built from.
    fn chromosome(&self) -> (r: &Chromosome)
        ensures
            r@ == self.genes_spec(),
    ;

    /// Builds a new individual around a freshly bred chromosome.
    fn create(chromosome: Chromosome) -> (r: Self)
        ensures
            r.genes_spec() == chromosome@,
    ;
}

/// A plain individual: a fitness paired with the chromosome it was graded
/// on. An embedding application converts its own agents to and from this
/// pair around each generational step.
pub struct ScoredIndividual {
    fitness: u32,
    chromosome: Chromosome,
}

impl ScoredIndividual {
    /// Pairs a fitness, given as the bit pattern of a non-negative 32-bit
    /// real, with the chromosome it grades.
    pub fn new(fitness: u32, chromosome: Chromosome) -> (r: ScoredIndividual)
        ensures
            r.fitness_spec() == fitness,
            r.genes_spec() == chromosome@,
    {
        ScoredIndividual { fitness, chromosome }
    }

    /// Hands the chromosome back, consuming the pair.
    pub fn into_chromosome(self) -> (r: Chromosome)
        ensures
            r@ == self.genes_spec(),
    {
        self.chromosome
    }
}

impl Individual for ScoredIndividual {
    closed spec fn genes_spec(&self) -> Seq<u32> {
        self.chromosome@
    }

    closed spec fn fitness_spec(&self) -> u32 {
        self.fitness
    }

    fn fitness(&self) -> (r: u32) {
        self.fitness
    }

    fn chromosome(&self) -> (r: &Chromosome) {
        &self.chromosome
    }

    /// A freshly bred individual has no meaningful fitness until the owning
    /// environment re-evaluates it: it starts at the pattern of zero.
    fn create(chromosome: Chromosome) -> (r: ScoredIndividual)
        ensures
            r.fitness_spec() == 0,
    {
        ScoredIndividual { fitness: 0, chromosome }
    }
}

} // verus!
