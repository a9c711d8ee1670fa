//! One layer of a feed-forward network: a non-empty, ordered sequence of
//! neurons that all share one input arity.
//!
//! In the flat weight encoding a layer contributes its neurons' slices in
//! neuron order.

use vstd::prelude::*;

use crate::neuron::Neuron;

verus! {

/// The flat encoding of a sequence of neurons: the concatenation of each
/// neuron's slice, in order.
pub open spec fn neurons_flat(s: Seq<Neuron>) -> Seq<u32>
    decreases s.len(),
{
    if s.len() == 0 {
        Seq::empty()
    } else {
        neurons_flat(s.drop_last()) + s.last().flat_spec()
    }
}

/// Neurons of one input arity contribute one bias and that many weights
/// each.
pub proof fn lemma_neurons_flat_len(s: Seq<Neuron>, input_size: nat)
    requires
        forall|i: int| 0 <= i < s.len() ==> (#[trigger] s[i]).weights_spec().len() == input_size,
    ensures
        neurons_flat(s).len() == s.len() * (input_size + 1),
    decreases s.len(),
{
    if s.len() == 0 {
    } else {
        lemma_neurons_flat_len(s.drop_last(), input_size);
        assert(s.last().flat_spec().len() == input_size + 1);
        assert((s.len() - 1) * (input_size + 1) + (input_size + 1) == s.len() * (input_size + 1))
            by (nonlinear_arith);
    }
}

/// The flat encoding identifies a neuron sequence: two sequences of one
/// length and one input arity with equal encodings carry the same biases
/// and the same weights, neuron by neuron.
pub proof fn lemma_neurons_flat_injective(s1: Seq<Neuron>, s2: Seq<Neuron>, input_size: nat)
    requires
        s1.len() == s2.len(),
        forall|i: int| 0 <= i < s1.len() ==> (#[trigger] s1[i]).weights_spec().len() == input_size,
        forall|i: int| 0 <= i < s2.len() ==> (#[trigger] s2[i]).weights_spec().len() == input_size,
        neurons_flat(s1) == neurons_flat(s2),
    ensures
        forall|i: int| 0 <= i < s1.len() ==> (#[trigger] s1[i]).eq_values(&s2[i]),
    decreases s1.len(),
{
    if s1.len() == 0 {
    } else {
        let a1 = neurons_flat(s1.drop_last());
        let b1 = s1.last().flat_spec();
        let a2 = neurons_flat(s2.drop_last());
        let b2 = s2.last().flat_spec();
        lemma_neurons_flat_len(s1.drop_last(), input_size);
        lemma_neurons_flat_len(s2.drop_last(), input_size);
        assert(a1.len() == a2.len());
        assert(b1.len() == b2.len());
        assert(a1 =~= (a1 + b1).subrange(0, a1.len() as int));
        assert(a2 =~= (a2 + b2).subrange(0, a2.len() as int));
        assert(b1 =~= (a1 + b1).subrange(a1.len() as int, (a1 + b1).len() as int));
        assert(b2 =~= (a2 + b2).subrange(a2.len() as int, (a2 + b2).len() as int));
        lemma_neurons_flat_injective(s1.drop_last(), s2.drop_last(), input_size);
        assert(s1.last().bias_spec() == b1[0] && s2.last().bias_spec() == b2[0]);
        assert(s1.last().weights_spec() =~= b1.subrange(1, b1.len() as int));
        assert(s2.last().weights_spec() =~= b2.subrange(1, b2.len() as int));
        assert forall|i: int| 0 <= i < s1.len() implies (#[trigger] s1[i]).eq_values(&s2[i]) by {
            if i < s1.len() - 1 {
                assert(s1[i] == s1.drop_last()[i] && s2[i] == s2.drop_last()[i]);
                assert(s1.drop_last()[i].eq_values(&s2.drop_last()[i]));
            } else {
                assert(s1[i] == s1.last() && s2[i] == s2.last());
            }
        }
    }
}

/// An ordered, non-empty sequence of neurons sharing one input arity.
pub struct Layer {
    neurons: Vec<Neuron>,
}

impl Layer {
    /// The neuron sequence, as a mathematical value.
    pub closed spec fn neurons_spec(&self) -> Seq<Neuron> {
        self.neurons@
    }

    /// The input arity every neuron of this layer shares.
    pub open spec fn input_size_spec(&self) -> nat {
        self.neurons_spec()[0].weights_spec().len()
    }

    /// The layer's slice of the flat weight encoding.
    pub open spec fn flat_spec(&self) -> Seq<u32> {
        neurons_flat(self.neurons_spec())
    }

    /// A layer holds at least one neuron, and every neuron has the layer's
    /// input arity.
    pub open spec fn wf(&self) -> bool {
        &&& self.neurons_spec().len() >= 1
        &&& forall|i: int| 0 <= i < self.neurons_spec().len() ==> (#[trigger] self.neurons_spec()[i]).wf()
        &&& forall|i: int|
            0 <= i < self.neurons_spec().len() ==> (#[trigger] self.neurons_spec()[i]).weights_spec().len()
                == self.input_size_spec()
    }

    /// Whether another layer carries the same neurons, value by value.
    pub open spec fn eq_values(&self, other: &Layer) -> bool {
        &&& self.neurons_spec().len() == other.neurons_spec().len()
        &&& forall|j: int|
            0 <= j < self.neurons_spec().len() ==> (#[trigger] self.neurons_spec()[j]).eq_values(
                &other.neurons_spec()[j],
            )
    }

    /// Builds a layer from its neurons. A caller owes a non-empty sequence
    /// of neurons that all share one weights length.
    pub fn new(neurons: Vec<Neuron>) -> (r: Layer)
        requires
            neurons@.len() >= 1,
            forall|i: int| 0 <= i < neurons@.len() ==> (#[trigger] neurons@[i]).wf(),
            forall|i: int|
                0 <= i < neurons@.len() ==> (#[trigger] neurons@[i]).weights_spec().len()
                    == neurons@[0].weights_spec().len(),
        ensures
            r.neurons_spec() == neurons@,
            r.wf(),
    {
        Layer { neurons }
    }

    /// The neurons, in order.
    pub fn neurons(&self) -> (r: &Vec<Neuron>)
        ensures
            r@ == self.neurons_spec(),
    {
        &self.neurons
    }

    /// Decodes one layer of `output_size` neurons, each of arity
    /// `input_size`, from the flat sequence at the cursor.
    pub fn from_weights(
        input_size: usize,
        output_size: usize,
        weights: &Vec<u32>,
        cursor: &mut usize,
    ) -> (r: Layer)
        requires
            input_size >= 1,
            output_size >= 1,
            *old(cursor) + output_size * (input_size + 1) <= weights@.len(),
        ensures
            *final(cursor) == *old(cursor) + output_size * (input_size + 1),
            r.wf(),
            r.input_size_spec() == input_size,
            r.neurons_spec().len() == output_size,
            r.flat_spec() == weights@.subrange(*old(cursor) as int, *final(cursor) as int),
    {
        let ghost start = *cursor;
        let mut neurons: Vec<Neuron> = Vec::new();
        for j in 0..output_size
            invariant
                input_size >= 1,
                output_size >= 1,
                start + output_size * (input_size + 1) <= weights@.len(),
                neurons@.len() == j,
                *cursor == start + j * (input_size + 1),
                forall|k: int| 0 <= k < neurons@.len() ==> (#[trigger] neurons@[k]).wf(),
                forall|k: int|
                    0 <= k < neurons@.len() ==> (#[trigger] neurons@[k]).weights_spec().len()
                        == input_size,
                neurons_flat(neurons@) == weights@.subrange(start as int, *cursor as int),
        {
            proof {
                assert((j + 1) * (input_size + 1) <= output_size * (input_size + 1))
                    by (nonlinear_arith)
                    requires
                        j + 1 <= output_size,
                        input_size >= 1,
                ;
                assert(j * (input_size + 1) + (input_size + 1) == (j + 1) * (input_size + 1))
                    by (nonlinear_arith);
            }
            let ghost pos = *cursor;
            let ghost before = neurons@;
            let neuron = Neuron::from_weights(input_size, weights, cursor);
            neurons.push(neuron);
            proof {
                assert(neurons@.drop_last() =~= before);
                assert(neurons_flat(neurons@) == neurons_flat(neurons@.drop_last())
                    + neurons@.last().flat_spec());
                assert(weights@.subrange(start as int, pos as int) + weights@.subrange(
                    pos as int,
                    *cursor as int,
                ) =~= weights@.subrange(start as int, *cursor as int));
            }
        }
        Layer { neurons }
    }

    /// Appends this layer's slice of the flat weight encoding: each
    /// neuron's slice, in neuron order.
    pub(crate) fn append_flat(&self, out: &mut Vec<u32>)
        ensures
            final(out)@ == old(out)@ + self.flat_spec(),
    {
        let ghost base = old(out)@;
        let n = self.neurons.len();
        for j in 0..n
            invariant
                n == self.neurons@.len(),
                out@ == base + neurons_flat(self.neurons_spec().take(j as int)),
        {
            self.neurons[j].append_flat(out);
            proof {
                let taken = self.neurons_spec().take(j + 1);
                assert(taken.drop_last() =~= self.neurons_spec().take(j as int));
                assert(taken.last() == self.neurons_spec()[j as int]);
                assert(out@ =~= base + neurons_flat(taken));
            }
        }
        proof {
            assert(self.neurons_spec().take(n as int) =~= self.neurons_spec());
        }
    }
}

} // verus!
