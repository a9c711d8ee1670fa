//! An evolutionary-optimization engine: a genetic algorithm over flat gene
//! sequences, together with the feed-forward network representation whose
//! weights those genes encode.
//!
//! Gene, weight and bias values are carried as the 32-bit IEEE-754 bit
//! patterns of the numbers they stand for (`u32`). The engine itself never
//! does numeric arithmetic on them: it selects, copies, recombines and
//! reorders them, which is exactly what is verified here. The embedding
//! application interprets the patterns as numbers where it evaluates
//! fitness or runs a network forward.

mod chromosome;
mod crossover;
mod genetic;
mod individual;
mod layer;
mod mutation;
mod network;
mod neuron;
mod rng;
mod selection;

pub use chromosome::Chromosome;
pub use crossover::CrossoverMethod;
pub use crossover::UniformCrossover;
pub use genetic::GeneticAlgorithm;
pub use genetic::uniform_gene_count;
pub use individual::Individual;
pub use individual::ScoredIndividual;
pub use layer::Layer;
pub use layer::lemma_neurons_flat_injective;
pub use layer::lemma_neurons_flat_len;
pub use layer::neurons_flat;
pub use network::LayerTopology;
pub use network::Network;
pub use network::expected_from;
pub use network::layers_flat;
pub use network::lemma_expected_from_nonneg;
pub use network::lemma_flat_identifies_network;
pub use network::lemma_flat_len_matches_topology;
pub use network::lemma_layer_flat_len;
pub use mutation::MutationMethod;
pub use neuron::Neuron;
pub use selection::SelectionMethod;
