use neuroevolution::Chromosome;
use neuroevolution::CrossoverMethod;
use neuroevolution::GeneticAlgorithm;
use neuroevolution::Individual;
use neuroevolution::MutationMethod;
use neuroevolution::ScoredIndividual;
use neuroevolution::SelectionMethod;
use neuroevolution::UniformCrossover;
use rand::seq::SliceRandom;
use rand::Rng;
use rand::SeedableRng;
use rand_chacha::ChaCha8Rng;

fn bits(values: &[f32]) -> Vec<u32> {
    values.iter().map(|v| v.to_bits()).collect()
}

fn individual(values: &[f32]) -> ScoredIndividual {
    let fitness: f32 = values.iter().sum();
    ScoredIndividual::new(fitness.to_bits(), Chromosome::new(bits(values)))
}

/// Always picks the individual with the highest fitness, ties to the first.
struct BestSelection;

impl SelectionMethod for BestSelection {
    fn select<'a, I: Individual>(&self, _rng: &mut ChaCha8Rng, population: &'a Vec<I>) -> &'a I {
        let mut best = &population[0];
        for candidate in population.iter() {
            if f32::from_bits(candidate.fitness()) > f32::from_bits(best.fitness()) {
                best = candidate;
            }
        }
        best
    }
}

/// Leaves the chromosome untouched.
struct NoMutation;

impl MutationMethod for NoMutation {
    fn mutate(&self, _rng: &mut ChaCha8Rng, _child: &mut Chromosome) {}
}

/// Fitness-proportionate selection, as the embedding application runs it.
struct RouletteWheelSelection;

impl SelectionMethod for RouletteWheelSelection {
    fn select<'a, I: Individual>(&self, rng: &mut ChaCha8Rng, population: &'a Vec<I>) -> &'a I {
        population
            .choose_weighted(rng, |individual| f32::from_bits(individual.fitness()))
            .expect("got an empty population")
    }
}

/// The uniform-magnitude, random-sign mutation, as the embedding
/// application runs it: per gene, a sign draw, a chance draw, and on
/// success a magnitude draw.
struct GaussianMethod {
    chance: f32,
    coeff: f32,
}

impl MutationMethod for GaussianMethod {
    fn mutate(&self, rng: &mut ChaCha8Rng, child: &mut Chromosome) {
        for i in 0..child.len() {
            let sign = if rng.gen_bool(0.5) { 1.0 } else { -1.0 };
            if rng.gen_bool(self.chance as _) {
                let gene = f32::from_bits(child.gene(i));
                child.set_gene(i, (gene + sign * self.coeff * rng.gen::<f32>()).to_bits());
            }
        }
    }
}

/// A freshly bred individual carries no fitness; grade it as its
/// environment would, here by the sum of its genes.
fn rescore(individual: ScoredIndividual) -> ScoredIndividual {
    let chromosome = individual.into_chromosome();
    let fitness: f32 = chromosome.genes().iter().map(|g| f32::from_bits(*g)).sum();
    ScoredIndividual::new(fitness.to_bits(), chromosome)
}

#[test]
fn chromosome_reads_back_its_genes() {
    let genes = bits(&[3.0, 1.0, 2.0]);
    let mut chromosome = Chromosome::new(genes.clone());
    assert_eq!(chromosome.len(), 3);
    assert_eq!(chromosome.gene(0), 3.0_f32.to_bits());
    assert_eq!(chromosome.gene(2), 2.0_f32.to_bits());
    assert_eq!(chromosome.genes(), &genes);
    chromosome.set_gene(1, 5.0_f32.to_bits());
    assert_eq!(chromosome.gene(1), 5.0_f32.to_bits());
    assert_eq!(chromosome.gene(0), 3.0_f32.to_bits());
    assert_eq!(chromosome.into_genes(), bits(&[3.0, 5.0, 2.0]));
}

#[test]
fn scored_individual_keeps_fitness_and_chromosome() {
    let one = individual(&[1.0, 2.0, 3.0]);
    assert_eq!(one.fitness(), 6.0_f32.to_bits());
    assert_eq!(one.chromosome().genes(), &bits(&[1.0, 2.0, 3.0]));
    assert_eq!(one.into_chromosome().into_genes(), bits(&[1.0, 2.0, 3.0]));
    let fresh = ScoredIndividual::create(Chromosome::new(bits(&[4.0])));
    assert_eq!(fresh.fitness(), 0);
}

#[test]
fn uniform_crossover_follows_the_fair_coin_stream() {
    let parent_a: Vec<f32> = (1..=100).map(|n| n as f32).collect();
    let parent_b: Vec<f32> = (1..=100).map(|n| -(n as f32)).collect();

    // The same seed, drawn as the fair coin of gen_bool, decides which
    // parent each gene must have come from.
    let mut coin_rng = ChaCha8Rng::from_seed(Default::default());
    let coins: Vec<bool> = (0..100).map(|_| coin_rng.gen_bool(0.5)).collect();
    assert!(coins.iter().any(|c| *c));
    assert!(coins.iter().any(|c| !*c));

    let mut rng = ChaCha8Rng::from_seed(Default::default());
    let child = UniformCrossover::new().crossover(
        &mut rng,
        &Chromosome::new(bits(&parent_a)),
        &Chromosome::new(bits(&parent_b)),
    );

    assert_eq!(child.len(), 100);
    for i in 0..100 {
        let expected = if coins[i] { parent_a[i] } else { parent_b[i] };
        assert_eq!(child.gene(i), expected.to_bits());
    }
}

#[test]
fn uniform_crossover_takes_every_gene_from_a_parent() {
    let parent_a = Chromosome::new(bits(&[1.0, 2.0, 3.0, 4.0, 5.0]));
    let parent_b = Chromosome::new(bits(&[-1.0, -2.0, -3.0, -4.0, -5.0]));
    let mut rng = ChaCha8Rng::from_seed([7; 32]);
    let child = UniformCrossover::new().crossover(&mut rng, &parent_a, &parent_b);
    assert_eq!(child.len(), 5);
    for i in 0..5 {
        let g = child.gene(i);
        assert!(g == parent_a.gene(i) || g == parent_b.gene(i));
    }
}

#[test]
fn evolve_keeps_the_population_size() {
    let ga = GeneticAlgorithm::new(BestSelection, UniformCrossover::new(), NoMutation);
    let population = vec![
        individual(&[0.0, 0.0, 0.0]),
        individual(&[1.0, 1.0, 1.0]),
        individual(&[1.0, 2.0, 1.0]),
        individual(&[2.0, 4.0, 2.0]),
    ];
    let mut rng = ChaCha8Rng::from_seed(Default::default());
    let next = ga.evolve(&mut rng, &population);
    assert_eq!(next.len(), 4);
    for child in &next {
        assert_eq!(child.chromosome().len(), 3);
    }
}

#[test]
fn lib_test() {
    let mut rng = ChaCha8Rng::from_seed(Default::default());
    // Create the algorithm
    let ga = GeneticAlgorithm::new(
        RouletteWheelSelection,
        UniformCrossover::new(),
        GaussianMethod {
            chance: 0.5,
            coeff: 0.5,
        },
    );
    let mut population = vec![
        individual(&[0.0, 0.0, 0.0]),
        individual(&[1.0, 1.0, 1.0]),
        individual(&[1.0, 2.0, 1.0]),
        individual(&[2.0, 4.0, 2.0]),
    ];
    // Evolve over generations, grading each fresh generation before the
    // next selection reads its fitness
    for _ in 0..10 {
        population = ga
            .evolve(&mut rng, &population)
            .into_iter()
            .map(rescore)
            .collect();
    }
    let expected = vec![
        individual(&[2.4740927, 4.789879, 1.6941864]),
        individual(&[1.0839049, 4.1960397, -0.5140536]),
        individual(&[1.8600199, 4.588976, 0.34133443]),
        individual(&[1.3374946, 4.392836, 1.9752667]),
    ];
    assert_eq!(f32::from_bits(expected[0].fitness()), 8.958158);
    assert_eq!(f32::from_bits(expected[1].fitness()), 4.765891);
    assert_eq!(f32::from_bits(expected[2].fitness()), 6.79033);
    assert_eq!(f32::from_bits(expected[3].fitness()), 7.705597);

    for (actual, wanted) in population.iter().zip(expected.iter()) {
        assert_eq!(actual.chromosome().genes(), wanted.chromosome().genes());
        assert_eq!(actual.fitness(), wanted.fitness());
    }
}

fn mutated(chance: f32, coeff: f32) -> Vec<u32> {
    let mut child = Chromosome::new(bits(&[1.0, 2.0, 3.0, 4.0, 5.0]));
    let mut rng = ChaCha8Rng::from_seed(Default::default());
    GaussianMethod { chance, coeff }.mutate(&mut rng, &mut child);
    child.into_genes()
}

#[test]
fn gaussian_does_not_change_original_chromosome() {
    // With chance zero no gene is ever touched, whatever the coefficient;
    // with coefficient zero every touch adds nothing.
    assert_eq!(mutated(0.0, 0.0), bits(&[1.0, 2.0, 3.0, 4.0, 5.0]));
    assert_eq!(mutated(0.0, 0.8), bits(&[1.0, 2.0, 3.0, 4.0, 5.0]));
    assert_eq!(mutated(0.5, 0.0), bits(&[1.0, 2.0, 3.0, 4.0, 5.0]));
    assert_eq!(mutated(1.0, 0.0), bits(&[1.0, 2.0, 3.0, 4.0, 5.0]));
}

#[test]
fn slightly_changes_original_chromosome() {
    assert_eq!(mutated(0.5, 0.8), bits(&[1.0, 2.3590002, 3.0, 3.7445111, 5.0]));
}

#[test]
fn entirely_changes_original_chromosome() {
    assert_eq!(
        mutated(1.0, 0.8),
        bits(&[0.27274954, 1.8140674, 3.3590002, 4.07918, 5.5780945]),
    );
}

#[test]
fn evolve_breeds_from_the_selected_parents() {
    // BestSelection always returns the fittest individual, so with no
    // mutation every child must be a gene-for-gene copy of it, carrying
    // the fresh zero fitness.
    let ga = GeneticAlgorithm::new(BestSelection, UniformCrossover::new(), NoMutation);
    let population = vec![
        individual(&[0.5, 0.25, 0.125]),
        individual(&[2.0, 4.0, 2.0]),
    ];
    let mut rng = ChaCha8Rng::from_seed(Default::default());
    let next = ga.evolve(&mut rng, &population);
    assert_eq!(next.len(), 2);
    for child in &next {
        assert_eq!(child.chromosome().genes(), &bits(&[2.0, 4.0, 2.0]));
        assert_eq!(child.fitness(), 0);
    }
}
