use discrete_law::experiment::DiscreteFiniteRandomExperiment;
use discrete_law::source::{ChaChaSource, UniformSource, draw_below};

fn freq(count: u64, n: usize) -> f64 {
    count as f64 / n as f64
}

#[test]
fn draw_below_stays_below_bound() {
    let mut rng = ChaChaSource::from_seed_u64(11);
    for bound in [1u64, 2, 3, 24, 1000] {
        for _ in 0..1000 {
            assert!(draw_below(&mut rng, bound) < bound);
        }
    }
}

#[test]
fn seed_determines_the_stream() {
    let mut a = ChaChaSource::from_seed_u64(1);
    let mut b = ChaChaSource::from_seed_u64(1);
    let mut c = ChaChaSource::from_seed_u64(2);
    let sa: Vec<u64> = (0..10).map(|_| a.next_u64()).collect();
    let sb: Vec<u64> = (0..10).map(|_| b.next_u64()).collect();
    let sc: Vec<u64> = (0..10).map(|_| c.next_u64()).collect();
    assert_eq!(sa, sb);
    assert_ne!(sa, sc);
    assert!(sa.windows(2).any(|w| w[0] != w[1]));
}

#[test]
fn fixed_seed_gives_identical_sample_sequences() {
    let omega = vec![String::from("A"), String::from("B"), String::from("C")];
    let law = vec![2, 5, 3];
    let exp1 = DiscreteFiniteRandomExperiment::new(omega.clone(), &law).unwrap();
    let exp2 = DiscreteFiniteRandomExperiment::new(omega, &law).unwrap();
    let mut rng1 = ChaChaSource::from_seed_u64(123456);
    let mut rng2 = ChaChaSource::from_seed_u64(123456);
    let s1: Vec<String> = (0..1000).map(|_| exp1.sample(&mut rng1)).collect();
    let s2: Vec<String> = (0..1000).map(|_| exp2.sample(&mut rng2)).collect();
    assert_eq!(s1, s2);
}

#[test]
fn single_outcome_every_draw() {
    let exp = DiscreteFiniteRandomExperiment::new(vec![String::from("only")], &vec![3]).unwrap();
    let mut rng = ChaChaSource::from_seed_u64(5);
    for _ in 0..1000 {
        assert_eq!(exp.sample(&mut rng), "only");
    }
}

#[test]
fn all_mass_on_one_outcome() {
    let exp = DiscreteFiniteRandomExperiment::new(vec![10, 20, 30, 40], &vec![0, 0, 1, 0]).unwrap();
    let mut rng = ChaChaSource::from_seed_u64(9);
    for _ in 0..1000 {
        assert_eq!(exp.sample(&mut rng), 30);
    }
}

#[test]
fn zero_mass_outcome_never_appears() {
    let omega = vec![String::from("x"), String::from("y"), String::from("z")];
    let exp = DiscreteFiniteRandomExperiment::new(omega, &vec![1, 0, 1]).unwrap();
    let mut rng = ChaChaSource::from_seed_u64(2024);
    let n: usize = 1_000_000;
    let counts = exp.simulate_counts(n, &mut rng);
    assert_eq!(counts[1], 0);
    assert!((freq(counts[0], n) - 0.5).abs() < 0.002);
    assert!((freq(counts[2], n) - 0.5).abs() < 0.002);
}

#[test]
fn fair_coin_by_scaling() {
    let omega = vec![String::from("H"), String::from("T")];
    let exp = DiscreteFiniteRandomExperiment::new(omega, &vec![3, 3]).unwrap();
    let cdf = &exp.distribution.cdf;
    let total = *cdf.last().unwrap() as f64;
    assert_eq!(cdf[0] as f64 / total, 0.5);
    assert_eq!(cdf[1] as f64 / total, 1.0);
    let mut rng = ChaChaSource::from_seed_u64(77);
    let n: usize = 1_000_000;
    let counts = exp.simulate_counts(n, &mut rng);
    assert!((freq(counts[0], n) - 0.5).abs() < 0.002);
}

#[test]
fn uniform_over_three() {
    let omega = vec![String::from("A"), String::from("B"), String::from("C")];
    let exp = DiscreteFiniteRandomExperiment::new(omega, &vec![1, 1, 1]).unwrap();
    let cdf = &exp.distribution.cdf;
    let total = *cdf.last().unwrap() as f64;
    assert!((cdf[0] as f64 / total - 1.0 / 3.0).abs() <= f64::EPSILON);
    assert!((cdf[1] as f64 / total - 2.0 / 3.0).abs() <= f64::EPSILON);
    assert_eq!(cdf[2] as f64 / total, 1.0);
    let mut rng = ChaChaSource::from_seed_u64(31);
    let n: usize = 1_000_000;
    let counts = exp.simulate_counts(n, &mut rng);
    for i in 0..3 {
        let f = freq(counts[i], n);
        assert!((0.331..=0.335).contains(&f));
    }
}

#[test]
fn biased_trio() {
    let omega = vec![String::from("A"), String::from("B"), String::from("C")];
    let exp = DiscreteFiniteRandomExperiment::new(omega, &vec![60, 30, 10]).unwrap();
    let mut rng = ChaChaSource::from_seed_u64(404);
    let n: usize = 1_000_000;
    let counts = exp.simulate_counts(n, &mut rng);
    assert!((freq(counts[0], n) - 0.60).abs() < 0.002);
    assert!((freq(counts[1], n) - 0.30).abs() < 0.002);
    assert!((freq(counts[2], n) - 0.10).abs() < 0.002);
}

#[test]
fn sample_many_matches_repeated_sample() {
    let omega = vec![String::from("A"), String::from("B"), String::from("C")];
    let exp = DiscreteFiniteRandomExperiment::new(omega, &vec![1, 2, 3]).unwrap();
    let mut rng1 = ChaChaSource::from_seed_u64(99);
    let mut rng2 = ChaChaSource::from_seed_u64(99);
    let many = exp.sample_many(500, &mut rng1);
    let one_by_one: Vec<String> = (0..500).map(|_| exp.sample(&mut rng2)).collect();
    assert_eq!(many, one_by_one);
}

#[test]
fn simulated_counts_sum_to_n() {
    let exp = DiscreteFiniteRandomExperiment::new(vec![1, 2, 3, 4], &vec![1, 2, 3, 4]).unwrap();
    let mut rng = ChaChaSource::from_seed_u64(8);
    let n: usize = 10_000;
    let counts = exp.simulate_counts(n, &mut rng);
    assert_eq!(counts.len(), 4);
    assert_eq!(counts.iter().sum::<u64>(), n as u64);
}
