//! The feed-forward network representation and its flat weight encoding.
//!
//! A network is an ordered sequence of layers in which layer `i`'s neuron
//! count equals layer `i + 1`'s per-neuron weights length; the shape is
//! fixed by the topology it was built from, never validated after the fact.
//! Its full weight set is the concatenation, layer-major then neuron-major,
//! of each neuron's bias followed by its weights. That order is the contract
//! that populates a chromosome from a network and rebuilds an isomorphic
//! network from a chromosome: the topology itself is not encoded, so a
//! caller must supply the same topology at decode time.

use vstd::prelude::*;

use crate::layer::Layer;
use crate::layer::lemma_neurons_flat_len;
use crate::layer::lemma_neurons_flat_injective;
use crate::layer::neurons_flat;

verus! {

/// One entry of a network topology: a neuron count. Adjacent pairs define
/// each layer's input and output sizes.
#[derive(Clone, Copy, Debug)]
pub struct LayerTopology {
    pub neurons: usize,
}

/// The flat encoding of a sequence of layers: the concatenation of each
/// layer's slice, in order.
pub open spec fn layers_flat(s: Seq<Layer>) -> Seq<u32>
    decreases s.len(),
{
    if s.len() == 0 {
        Seq::empty()
    } else {
        layers_flat(s.drop_last()) + s.last().flat_spec()
    }
}

/// The number of values the layers built from topology entries `i` onward
/// consume from a flat encoding: one bias and one weight per input for each
/// neuron of each adjacent pair.
pub open spec fn expected_from(t: Seq<LayerTopology>, i: int) -> int
    decreases t.len() - i,
{
    if i < 0 || i + 1 >= t.len() {
        0
    } else {
        (t[i].neurons + 1) * t[i + 1].neurons + expected_from(t, i + 1)
    }
}

/// A flat encoding never has a negative length.
pub proof fn lemma_expected_from_nonneg(t: Seq<LayerTopology>, i: int)
    ensures
        expected_from(t, i) >= 0,
    decreases t.len() - i,
{
    if i < 0 || i + 1 >= t.len() {
    } else {
        lemma_expected_from_nonneg(t, i + 1);
        assert((t[i].neurons + 1) * t[i + 1].neurons >= 0) by (nonlinear_arith)
            requires
                t[i].neurons >= 0,
                t[i + 1].neurons >= 0,
        ;
    }
}

/// An ordered sequence of layers where each layer feeds the next.
pub struct Network {
    layers: Vec<Layer>,
}

impl Network {
    /// The layer sequence, as a mathematical value.
    pub closed spec fn layers_spec(&self) -> Seq<Layer> {
        self.layers@
    }

    /// The network's flat weight encoding.
    pub open spec fn flat_spec(&self) -> Seq<u32> {
        layers_flat(self.layers_spec())
    }

    /// At least one well-formed layer, and layer `i`'s neuron count equals
    /// layer `i + 1`'s input arity.
    pub open spec fn wf(&self) -> bool {
        &&& self.layers_spec().len() >= 1
        &&& forall|i: int| 0 <= i < self.layers_spec().len() ==> (#[trigger] self.layers_spec()[i]).wf()
        &&& forall|i: int|
            0 <= i < self.layers_spec().len() - 1 ==> (#[trigger] self.layers_spec()[i
                + 1]).input_size_spec() == self.layers_spec()[i].neurons_spec().len()
    }

    /// Whether this network has the shape the topology describes: one layer
    /// per adjacent pair of entries, each with that pair's input arity and
    /// neuron count.
    pub open spec fn matches_topology(&self, t: Seq<LayerTopology>) -> bool {
        &&& self.layers_spec().len() + 1 == t.len()
        &&& forall|i: int|
            0 <= i < self.layers_spec().len() ==> (#[trigger] self.layers_spec()[i]).input_size_spec()
                == t[i].neurons && self.layers_spec()[i].neurons_spec().len() == t[i + 1].neurons
    }

    /// Whether another network carries the same biases and weights, layer by
    /// layer and neuron by neuron.
    pub open spec fn eq_values(&self, other: &Network) -> bool {
        &&& self.layers_spec().len() == other.layers_spec().len()
        &&& forall|i: int|
            0 <= i < self.layers_spec().len() ==> (#[trigger] self.layers_spec()[i]).eq_values(
                &other.layers_spec()[i],
            )
    }

    pub(crate) fn new(layers: Vec<Layer>) -> (r: Network)
        ensures
            r.layers_spec() == layers@,
    {
        Network { layers }
    }

    /// The layers, in order.
    pub fn layers(&self) -> (r: &Vec<Layer>)
        ensures
            r@ == self.layers_spec(),
    {
        &self.layers
    }

    /// The number of values the flat encoding of a network of this topology
    /// holds, or nothing where that count does not fit the machine.
    pub fn weights_len(topology: &Vec<LayerTopology>) -> (r: Option<usize>)
        ensures
            match r {
                Some(k) => k == expected_from(topology@, 0),
                None => expected_from(topology@, 0) > usize::MAX,
            },
    {
        let n = topology.len();
        if n < 2 {
            return Some(0);
        }
        let mut acc: usize = 0;
        let mut i = n - 1;
        while i > 0
            invariant
                n == topology@.len(),
                n >= 2,
                i < n,
                acc == expected_from(topology@, i as int),
            decreases i,
        {
            i = i - 1;
            let out = topology[i + 1].neurons;
            let slice: usize = if out == 0 {
                proof {
                    assert((topology@[i as int].neurons + 1) * 0 == 0) by (nonlinear_arith);
                }
                0
            } else {
                let fan_in = match topology[i].neurons.checked_add(1) {
                    Some(v) => v,
                    None => {
                        proof {
                            assert((topology@[i as int].neurons + 1) * topology@[i + 1].neurons
                                >= topology@[i as int].neurons + 1) by (nonlinear_arith)
                                requires
                                    topology@[i + 1].neurons >= 1,
                                    topology@[i as int].neurons >= 0,
                            ;
                            lemma_expected_from_nonneg(topology@, i + 1);
                            lemma_expected_from_mono(topology@, 0, i as int);
                        }
                        return None;
                    },
                };
                match fan_in.checked_mul(out) {
                    Some(v) => v,
                    None => {
                        proof {
                            lemma_expected_from_nonneg(topology@, i + 1);
                            lemma_expected_from_mono(topology@, 0, i as int);
                        }
                        return None;
                    },
                }
            };
            acc = match acc.checked_add(slice) {
                Some(v) => v,
                None => {
                    proof {
                        lemma_expected_from_mono(topology@, 0, i as int);
                    }
                    return None;
                },
            };
        }
        Some(acc)
    }

    /// Reconstructs a network from a topology and the flat weight sequence a
    /// network of that shape encodes to. The caller owes a topology of
    /// length above one with no empty entry, and exactly as many values as
    /// that shape consumes: an exhausted or oversized sequence is a contract
    /// violation. The result has the topology's shape and flattens back to
    /// the given sequence, which pins it down completely.
    pub fn from_weights(topology: &Vec<LayerTopology>, weights: &Vec<u32>) -> (r: Network)
        requires
            topology@.len() > 1,
            forall|i: int| 0 <= i < topology@.len() ==> (#[trigger] topology@[i]).neurons >= 1,
            weights@.len() == expected_from(topology@, 0),
        ensures
            r.wf(),
            r.matches_topology(topology@),
            r.flat_spec() == weights@,
    {
        let n = topology.len();
        let total = weights.len();
        let mut cursor: usize = 0;
        let mut layers: Vec<Layer> = Vec::new();
        for i in 0..n - 1
            invariant
                n == topology@.len(),
                n > 1,
                total == weights@.len(),
                forall|k: int| 0 <= k < topology@.len() ==> (#[trigger] topology@[k]).neurons >= 1,
                layers@.len() == i,
                cursor + expected_from(topology@, i as int) == total,
                forall|k: int| 0 <= k < layers@.len() ==> (#[trigger] layers@[k]).wf(),
                forall|k: int|
                    0 <= k < layers@.len() ==> (#[trigger] layers@[k]).input_size_spec()
                        == topology@[k].neurons && layers@[k].neurons_spec().len() == topology@[k
                        + 1].neurons,
                layers_flat(layers@) == weights@.subrange(0, cursor as int),
        {
            proof {
                lemma_expected_from_nonneg(topology@, i + 1);
                assert(expected_from(topology@, i as int) == (topology@[i as int].neurons + 1)
                    * topology@[i + 1].neurons + expected_from(topology@, i + 1));
                assert(topology@[i + 1].neurons * (topology@[i as int].neurons + 1) == (
                topology@[i as int].neurons + 1) * topology@[i + 1].neurons) by (nonlinear_arith);
            }
            let in_size = topology[i].neurons;
            let out_size = topology[i + 1].neurons;
            let ghost pos = cursor;
            let ghost before = layers@;
            let layer = Layer::from_weights(in_size, out_size, weights, &mut cursor);
            layers.push(layer);
            proof {
                assert(layers@.drop_last() =~= before);
                assert(layers_flat(layers@) == layers_flat(layers@.drop_last())
                    + layers@.last().flat_spec());
                assert(weights@.subrange(0, pos as int) + weights@.subrange(
                    pos as int,
                    cursor as int,
                ) =~= weights@.subrange(0, cursor as int));
            }
        }
        proof {
            assert(expected_from(topology@, n - 1 as int) == 0);
            assert(layers_flat(layers@) =~= weights@);
            assert forall|i: int| 0 <= i < layers@.len() - 1 implies (#[trigger] layers@[i
                + 1]).input_size_spec() == layers@[i].neurons_spec().len() by {
                assert(layers@[i + 1].input_size_spec() == topology@[i + 1].neurons);
                assert(layers@[i].input_size_spec() == topology@[i].neurons);
                assert(layers@[i].neurons_spec().len() == topology@[i + 1].neurons);
            }
        }
        Network { layers }
    }

    /// The network's full weight set as one flat sequence: layer-major, then
    /// neuron-major, each neuron contributing its bias first and then its
    /// weights in order.
    pub fn weights(&self) -> (r: Vec<u32>)
        ensures
            r@ == self.flat_spec(),
    {
        let mut out: Vec<u32> = Vec::new();
        let n = self.layers.len();
        for i in 0..n
            invariant
                n == self.layers@.len(),
                out@ == layers_flat(self.layers_spec().take(i as int)),
        {
            self.layers[i].append_flat(&mut out);
            proof {
                let taken = self.layers_spec().take(i + 1);
                assert(taken.drop_last() =~= self.layers_spec().take(i as int));
                assert(taken.last() == self.layers_spec()[i as int]);
                assert(out@ =~= layers_flat(taken));
            }
        }
        proof {
            assert(self.layers_spec().take(n as int) =~= self.layers_spec());
        }
        out
    }
}

/// A flat count only shrinks as its starting entry moves right: every slice
/// it drops is non-negative.
proof fn lemma_expected_from_mono(t: Seq<LayerTopology>, j: int, i: int)
    requires
        0 <= j <= i,
    ensures
        expected_from(t, j) >= expected_from(t, i),
    decreases i - j,
{
    if j < i {
        lemma_expected_from_mono(t, j + 1, i);
        if j + 1 < t.len() {
            assert((t[j].neurons + 1) * t[j + 1].neurons >= 0) by (nonlinear_arith)
                requires
                    t[j].neurons >= 0,
                    t[j + 1].neurons >= 0,
            ;
        }
    }
}

/// A layer of one shape always encodes to the same number of values.
pub proof fn lemma_layer_flat_len(l: Layer)
    requires
        l.wf(),
    ensures
        l.flat_spec().len() == l.neurons_spec().len() * (l.input_size_spec() + 1),
{
    lemma_neurons_flat_len(l.neurons_spec(), l.input_size_spec());
}

/// Dropping a topology's last entry drops exactly the last layer's slice
/// from the flat count.
proof fn lemma_expected_drop_last(t: Seq<LayerTopology>, i: int)
    requires
        t.len() >= 2,
        0 <= i <= t.len() - 2,
    ensures
        expected_from(t, i) == expected_from(t.drop_last(), i) + (t[t.len() - 2].neurons + 1) * t[
            t.len() - 1].neurons,
    decreases t.len() - i,
{
    if i == t.len() - 2 {
        assert(expected_from(t, i) == (t[i].neurons + 1) * t[i + 1].neurons + expected_from(
            t,
            i + 1,
        ));
        assert(expected_from(t, i + 1) == 0);
        assert(expected_from(t.drop_last(), i) == 0);
    } else {
        lemma_expected_drop_last(t, i + 1);
        assert(t.drop_last()[i] == t[i]);
        assert(t.drop_last()[i + 1] == t[i + 1]);
        assert(expected_from(t, i) == (t[i].neurons + 1) * t[i + 1].neurons + expected_from(
            t,
            i + 1,
        ));
        assert(expected_from(t.drop_last(), i) == (t.drop_last()[i].neurons + 1) * t.drop_last()[i
            + 1].neurons + expected_from(t.drop_last(), i + 1));
    }
}

/// The induction behind `lemma_flat_len_matches_topology`: a layer
/// sequence shaped by a topology encodes to exactly the topology's flat
/// count.
proof fn lemma_layers_flat_len_expected(s: Seq<Layer>, t: Seq<LayerTopology>)
    requires
        s.len() + 1 == t.len(),
        forall|k: int| 0 <= k < s.len() ==> (#[trigger] s[k]).wf(),
        forall|k: int|
            0 <= k < s.len() ==> (#[trigger] s[k]).input_size_spec() == t[k].neurons
                && s[k].neurons_spec().len() == t[k + 1].neurons,
    ensures
        layers_flat(s).len() == expected_from(t, 0),
    decreases s.len(),
{
    if s.len() == 0 {
    } else {
        let s2 = s.drop_last();
        let t2 = t.drop_last();
        assert(forall|k: int| 0 <= k < s2.len() ==> #[trigger] s2[k] == s[k]);
        assert(forall|k: int| 0 <= k < t2.len() ==> #[trigger] t2[k] == t[k]);
        lemma_layers_flat_len_expected(s2, t2);
        lemma_layer_flat_len(s.last());
        lemma_expected_drop_last(t, 0);
        assert(layers_flat(s) == layers_flat(s2) + s.last().flat_spec());
        assert(s.last().neurons_spec().len() * (s.last().input_size_spec() + 1) == (t[t.len()
            - 2].neurons + 1) * t[t.len() - 1].neurons) by (nonlinear_arith)
            requires
                s.last().input_size_spec() == t[t.len() - 2].neurons,
                s.last().neurons_spec().len() == t[t.len() - 1].neurons,
        ;
    }
}

/// A network's shape fixes its flat length: every well-formed network of
/// one topology encodes to the same number of values, so two chromosomes
/// produced from one topology always have equal length.
pub proof fn lemma_flat_len_matches_topology(n: Network, t: Seq<LayerTopology>)
    requires
        n.wf(),
        n.matches_topology(t),
    ensures
        n.flat_spec().len() == expected_from(t, 0),
{
    lemma_layers_flat_len_expected(n.layers_spec(), t);
}

/// The flat encoding identifies a network among those of one topology: two
/// well-formed networks of the same topology with equal flat weight
/// sequences carry the same biases and the same weights throughout. Since
/// decoding a flat sequence yields a network of the given topology that
/// flattens back to that sequence, decoding a network's own encoding with
/// its own topology reconstructs every bias and every weight of the network:
/// the encode/decode round trip is lossless.
pub proof fn lemma_flat_identifies_network(n1: Network, n2: Network, t: Seq<LayerTopology>)
    requires
        n1.wf(),
        n2.wf(),
        n1.matches_topology(t),
        n2.matches_topology(t),
        n1.flat_spec() == n2.flat_spec(),
    ensures
        n1.eq_values(&n2),
{
    lemma_layers_flat_injective(n1.layers_spec(), n2.layers_spec(), t);
}

/// The induction behind `lemma_flat_identifies_network`, over the layer
/// sequences of two networks of one topology.
proof fn lemma_layers_flat_injective(s1: Seq<Layer>, s2: Seq<Layer>, t: Seq<LayerTopology>)
    requires
        s1.len() == s2.len(),
        s1.len() + 1 <= t.len(),
        forall|i: int| 0 <= i < s1.len() ==> (#[trigger] s1[i]).wf(),
        forall|i: int| 0 <= i < s2.len() ==> (#[trigger] s2[i]).wf(),
        forall|i: int|
            0 <= i < s1.len() ==> (#[trigger] s1[i]).input_size_spec() == t[i].neurons
                && s1[i].neurons_spec().len() == t[i + 1].neurons,
        forall|i: int|
            0 <= i < s2.len() ==> (#[trigger] s2[i]).input_size_spec() == t[i].neurons
                && s2[i].neurons_spec().len() == t[i + 1].neurons,
        layers_flat(s1) == layers_flat(s2),
    ensures
        forall|i: int| 0 <= i < s1.len() ==> (#[trigger] s1[i]).eq_values(&s2[i]),
    decreases s1.len(),
{
    if s1.len() == 0 {
    } else {
        let a1 = layers_flat(s1.drop_last());
        let b1 = s1.last().flat_spec();
        let a2 = layers_flat(s2.drop_last());
        let b2 = s2.last().flat_spec();
        lemma_layer_flat_len(s1.last());
        lemma_layer_flat_len(s2.last());
        assert(b1.len() == b2.len());
        assert(layers_flat(s1) == a1 + b1);
        assert(layers_flat(s2) == a2 + b2);
        assert((a1 + b1).len() == a1.len() + b1.len());
        assert((a2 + b2).len() == a2.len() + b2.len());
        assert(a1.len() == a2.len());
        assert(a1 =~= (a1 + b1).subrange(0, a1.len() as int));
        assert(a2 =~= (a2 + b2).subrange(0, a2.len() as int));
        assert(b1 =~= (a1 + b1).subrange(a1.len() as int, (a1 + b1).len() as int));
        assert(b2 =~= (a2 + b2).subrange(a2.len() as int, (a2 + b2).len() as int));
        lemma_layers_flat_injective(s1.drop_last(), s2.drop_last(), t);
        lemma_neurons_flat_injective(
            s1.last().neurons_spec(),
            s2.last().neurons_spec(),
            s1.last().input_size_spec(),
        );
        assert forall|i: int| 0 <= i < s1.len() implies (#[trigger] s1[i]).eq_values(&s2[i]) by {
            if i < s1.len() - 1 {
                assert(s1[i] == s1.drop_last()[i] && s2[i] == s2.drop_last()[i]);
                assert(s1.drop_last()[i].eq_values(&s2.drop_last()[i]));
            } else {
                assert(s1[i] == s1.last() && s2[i] == s2.last());
            }
        }
    }
}

} // verus!
