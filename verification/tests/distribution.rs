use spatial::Discrete;
use spatial::Space;

fn chi_square(counts: &[u64], draws: u64) -> f64 {
    let expected = draws as f64 / counts.len() as f64;
    let mut stat: f64 = 0.0;
    for &c in counts {
        let diff = c as f64 - expected;
        stat += diff * diff / expected;
    }
    stat
}

#[test]
fn single_draws_are_uniform() {
    let mut d = Discrete::new(5, Some(987654321)).unwrap();
    let mut counts = [0u64; 5];
    for _ in 0..100_000 {
        counts[d.sample()] += 1;
    }
    let stat = chi_square(&counts, 100_000);
    // Four degrees of freedom: a uniform source stays below 30 except with
    // negligible probability, and the draw sequence is fixed by the seed.
    assert!(stat < 30.0, "chi-square statistic too large: {stat}");
}

#[test]
fn batch_draws_are_uniform() {
    let mut d = Discrete::new(5, Some(123456789)).unwrap();
    let batch = d.sample_batch(100_000);
    let mut counts = [0u64; 5];
    for v in batch {
        counts[v] += 1;
    }
    let stat = chi_square(&counts, 100_000);
    assert!(stat < 30.0, "chi-square statistic too large: {stat}");
}

#[test]
fn draws_are_not_constant() {
    // Guards the generator boundary: a draw that ignored its generator and
    // returned a fixed value would pass every range check but fail here.
    let mut d = Discrete::new(1000, Some(55)).unwrap();
    let batch = d.sample_batch(100);
    let first = batch[0];
    assert!(batch.iter().any(|&v| v != first));
}
