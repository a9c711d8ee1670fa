use neuroevolution::Layer;
use neuroevolution::LayerTopology;
use neuroevolution::Network;
use neuroevolution::Neuron;

fn bits(values: &[f32]) -> Vec<u32> {
    values.iter().map(|v| v.to_bits()).collect()
}

fn topology(counts: &[usize]) -> Vec<LayerTopology> {
    counts.iter().map(|n| LayerTopology { neurons: *n }).collect()
}

#[test]
fn neuron_keeps_bias_and_weights() {
    let neuron = Neuron::new(0.3_f32.to_bits(), bits(&[-0.3, 0.8]));
    assert_eq!(neuron.bias(), 0.3_f32.to_bits());
    assert_eq!(neuron.weights(), &bits(&[-0.3, 0.8]));
}

#[test]
fn neuron_from_weights_takes_bias_first() {
    let flat = bits(&[0.1, 0.2, 0.3, 0.4, 0.5, 0.6]);
    let mut cursor: usize = 0;
    let neuron = Neuron::from_weights(3, &flat, &mut cursor);
    assert_eq!(cursor, 4);
    assert_eq!(neuron.bias(), 0.1_f32.to_bits());
    assert_eq!(neuron.weights(), &bits(&[0.2, 0.3, 0.4]));

    let second = Neuron::from_weights(1, &flat, &mut cursor);
    assert_eq!(cursor, 6);
    assert_eq!(second.bias(), 0.5_f32.to_bits());
    assert_eq!(second.weights(), &bits(&[0.6]));
}

#[test]
fn layer_from_weights_splits_neuron_slices() {
    let flat = bits(&[0.1, 0.2, 0.3, 0.4, 0.5, 0.6]);
    let mut cursor: usize = 0;
    let layer = Layer::from_weights(2, 2, &flat, &mut cursor);
    assert_eq!(cursor, 6);
    assert_eq!(layer.neurons().len(), 2);
    assert_eq!(layer.neurons()[0].bias(), 0.1_f32.to_bits());
    assert_eq!(layer.neurons()[0].weights(), &bits(&[0.2, 0.3]));
    assert_eq!(layer.neurons()[1].bias(), 0.4_f32.to_bits());
    assert_eq!(layer.neurons()[1].weights(), &bits(&[0.5, 0.6]));
}

#[test]
fn weights_len_counts_biases_and_weights() {
    // Two layers: (3 + 1) * 2 and (2 + 1) * 1 values.
    assert_eq!(Network::weights_len(&topology(&[3, 2, 1])), Some(11));
    assert_eq!(Network::weights_len(&topology(&[5, 4])), Some(24));
    assert_eq!(Network::weights_len(&topology(&[7])), Some(0));
    assert_eq!(Network::weights_len(&topology(&[])), Some(0));
    assert_eq!(Network::weights_len(&topology(&[usize::MAX, 2, 1])), None);
}

#[test]
fn from_weights_builds_the_topology_shape() {
    let flat = bits(&[
        0.1, 0.2, 0.3, 0.4, 0.5, 0.6, 0.7, 0.8, 0.9, 1.0, 1.1,
    ]);
    let network = Network::from_weights(&topology(&[3, 2, 1]), &flat);
    assert_eq!(network.layers().len(), 2);
    assert_eq!(network.layers()[0].neurons().len(), 2);
    assert_eq!(network.layers()[1].neurons().len(), 1);
    assert_eq!(network.layers()[0].neurons()[0].weights().len(), 3);
    assert_eq!(network.layers()[0].neurons()[1].weights().len(), 3);
    assert_eq!(network.layers()[1].neurons()[0].weights().len(), 2);
    // Layer-major, neuron-major, bias first.
    assert_eq!(network.layers()[0].neurons()[0].bias(), 0.1_f32.to_bits());
    assert_eq!(
        network.layers()[0].neurons()[0].weights(),
        &bits(&[0.2, 0.3, 0.4]),
    );
    assert_eq!(network.layers()[0].neurons()[1].bias(), 0.5_f32.to_bits());
    assert_eq!(network.layers()[1].neurons()[0].bias(), 0.9_f32.to_bits());
    assert_eq!(
        network.layers()[1].neurons()[0].weights(),
        &bits(&[1.0, 1.1]),
    );
}

#[test]
fn encode_decode_round_trip_is_lossless() {
    let shape = topology(&[4, 3, 2]);
    let count = Network::weights_len(&shape).unwrap();
    assert_eq!(count, 23);
    let flat: Vec<u32> = (0..count)
        .map(|i| (0.01 * (i as f32 + 1.0)).to_bits())
        .collect();
    let network = Network::from_weights(&shape, &flat);
    let encoded = network.weights();
    assert_eq!(encoded, flat);

    let rebuilt = Network::from_weights(&shape, &encoded);
    for (layer, source) in rebuilt.layers().iter().zip(network.layers().iter()) {
        assert_eq!(layer.neurons().len(), source.neurons().len());
        for (neuron, from) in layer.neurons().iter().zip(source.neurons().iter()) {
            assert_eq!(neuron.bias(), from.bias());
            assert_eq!(neuron.weights(), from.weights());
        }
    }
}
