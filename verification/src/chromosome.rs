//! An ordered sequence of genes: one candidate solution of the genetic
//! algorithm. A gene is the 32-bit bit pattern of one real-valued weight;
//! gene order is significant, since a gene's position decides which network
//! weight it encodes.

use vstd::prelude::*;

verus! {

/// One candidate solution: an ordered sequence of genes.
#[derive(Clone)]
pub struct Chromosome {
    genes: Vec<u32>,
}

impl View for Chromosome {
    type V = Seq<u32>;

    closed spec fn view(&self) -> Seq<u32> {
        self.genes@
    }
}

impl Chromosome {
    /// Builds a chromosome from an arbitrary sequence of genes.
    pub fn new(genes: Vec<u32>) -> (r: Chromosome)
        ensures
            r@ == genes@,
    {
        Chromosome { genes }
    }

    /// The number of genes.
    pub fn len(&self) -> (r: usize)
        ensures
            r == self@.len(),
    {
        self.genes.len()
    }

    /// Indexed read of one gene.
    pub fn gene(&self, index: usize) -> (r: u32)
        requires
            index < self@.len(),
        ensures
            r == self@[index as int],
    {
        self.genes[index]
    }

    /// Replaces one gene in place; every other gene is kept.
    pub fn set_gene(&mut self, index: usize, gene: u32)
        requires
            index < old(self)@.len(),
        ensures
            final(self)@ == old(self)@.update(index as int, gene),
    {
        self.genes.set(index, gene);
    }

    /// The full gene sequence, in order.
    pub fn genes(&self) -> (r: &Vec<u32>)
        ensures
            r@ == self@,
    {
        &self.genes
    }

    /// Consumes the chromosome, handing back its gene sequence.
    pub fn into_genes(self) -> (r: Vec<u32>)
        ensures
            r@ == self@,
    {
        self.genes
    }
}

} // verus!
