//! One unit of a feed-forward layer: a bias and one weight per input.
//!
//! Bias and weights are carried as the 32-bit bit patterns of the numbers
//! they stand for. In the flat weight encoding a neuron contributes its bias
//! first, then its weights in order.

use vstd::prelude::*;

verus! {

/// A bias and an ordered sequence of weights; the weights length equals the
/// neuron's input arity.
pub struct Neuron {
    bias: u32,
    weights: Vec<u32>,
}

impl Neuron {
    /// The bias, as a mathematical value.
    pub closed spec fn bias_spec(&self) -> u32 {
        self.bias
    }

    /// The weight sequence, as a mathematical value.
    pub closed spec fn weights_spec(&self) -> Seq<u32> {
        self.weights@
    }

    /// The neuron's slice of the flat weight encoding: bias first, then the
    /// weights in order.
    pub open spec fn flat_spec(&self) -> Seq<u32> {
        seq![self.bias_spec()] + self.weights_spec()
    }

    /// A neuron always has at least one weight.
    pub open spec fn wf(&self) -> bool {
        self.weights_spec().len() >= 1
    }

    /// Whether another neuron carries the same bias and the same weights.
    pub open spec fn eq_values(&self, other: &Neuron) -> bool {
        self.bias_spec() == other.bias_spec() && self.weights_spec() == other.weights_spec()
    }

    pub fn new(bias: u32, weights: Vec<u32>) -> (r: Neuron)
        requires
            weights@.len() >= 1,
        ensures
            r.bias_spec() == bias,
            r.weights_spec() == weights@,
            r.wf(),
    {
        Neuron { bias, weights }
    }

    pub fn bias(&self) -> (r: u32)
        ensures
            r == self.bias_spec(),
    {
        self.bias
    }

    pub fn weights(&self) -> (r: &Vec<u32>)
        ensures
            r@ == self.weights_spec(),
    {
        &self.weights
    }

    /// Appends this neuron's slice of the flat weight encoding: the bias,
    /// then the weights in order.
    pub(crate) fn append_flat(&self, out: &mut Vec<u32>)
        ensures
            final(out)@ == old(out)@ + self.flat_spec(),
    {
        let ghost base = old(out)@;
        out.push(self.bias);
        let n = self.weights.len();
        for j in 0..n
            invariant
                n == self.weights@.len(),
                out@ == base + seq![self.bias_spec()] + self.weights_spec().take(j as int),
        {
            out.push(self.weights[j]);
            proof {
                assert(self.weights_spec().take(j + 1) =~= self.weights_spec().take(j as int).push(
                    self.weights_spec()[j as int],
                ));
            }
        }
        proof {
            assert(self.weights_spec().take(n as int) =~= self.weights_spec());
            assert(base + seq![self.bias_spec()] + self.weights_spec() =~= base
                + self.flat_spec());
        }
    }

    /// Consumes one value for the bias and then `input_size` values for the
    /// weights, in that order, from the flat sequence at the cursor. The
    /// caller owes a sequence long enough; an undersized one is a contract
    /// violation, never read past the end.
    pub fn from_weights(input_size: usize, weights: &Vec<u32>, cursor: &mut usize) -> (r: Neuron)
        requires
            input_size >= 1,
            *old(cursor) + input_size + 1 <= weights@.len(),
        ensures
            *final(cursor) == *old(cursor) + input_size + 1,
            r.wf(),
            r.bias_spec() == weights@[*old(cursor) as int],
            r.weights_spec() == weights@.subrange(
                *old(cursor) + 1,
                *old(cursor) + 1 + input_size,
            ),
            r.flat_spec() == weights@.subrange(*old(cursor) as int, *final(cursor) as int),
    {
        let total = weights.len();
        let start = *cursor;
        let bias = weights[start];
        let mut taken: Vec<u32> = Vec::new();
        for j in 0..input_size
            invariant
                total == weights@.len(),
                start + input_size + 1 <= total,
                taken@.len() == j,
                taken@ == weights@.subrange(start + 1, start + 1 + j),
        {
            taken.push(weights[start + 1 + j]);
            proof {
                assert(taken@ =~= weights@.subrange(start + 1, start + 1 + j + 1));
            }
        }
        *cursor = start + input_size + 1;
        let r = Neuron { bias, weights: taken };
        proof {
            assert(r.flat_spec() =~= weights@.subrange(start as int, start + input_size + 1));
        }
        r
    }
}

} // verus!
