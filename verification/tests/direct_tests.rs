use coin_sim::direct::DirectEstimator;

#[test]
fn fresh_estimator_has_an_empty_histogram() {
    let e = DirectEstimator::new(10, 0);
    assert_eq!(e.histogram().len(), 11);
    assert_eq!(e.total(), 0);
    assert!(e.histogram().iter().all(|&c| c == 0));
}

#[test]
fn thousand_batches_of_four_coins() {
    let mut e = DirectEstimator::new(4, 0xfeed);
    e.sample_batches(1000);
    let (counts, total) = e.probability_weights();
    assert_eq!(total, 1000);
    assert_eq!(counts.len(), 5);
    assert_eq!(counts.iter().sum::<usize>(), 1000);
    let prob: Vec<f64> = counts.iter().map(|&c| c as f64 / total as f64).collect();
    let s: f64 = prob.iter().sum();
    assert!((s - 1.0).abs() <= 1e-9);
    // four fair coins give two heads far too often for any single bin to
    // have soaked up every batch
    assert!(counts[2] > 0);
    assert!(counts.iter().filter(|&&c| c > 0).count() >= 2);
}

#[test]
fn probability_sums_to_one_after_a_single_batch() {
    let mut e = DirectEstimator::new(6, 1);
    let k = e.sample_batch();
    assert!(k <= 6);
    let (counts, total) = e.probability_weights();
    assert_eq!(total, 1);
    let s: f64 = counts.iter().map(|&c| c as f64 / total as f64).sum();
    assert!((s - 1.0).abs() <= 1e-12);
}

#[test]
fn same_seed_replays_the_same_histogram() {
    let mut a = DirectEstimator::new(10, 77);
    let mut b = DirectEstimator::new(10, 77);
    a.sample_batches(500);
    b.sample_batches(500);
    assert_eq!(a.histogram(), b.histogram());
    assert_eq!(a.total(), 500);
}

#[test]
fn a_zero_coin_sequence_has_a_single_bin() {
    let mut e = DirectEstimator::new(0, 5);
    assert_eq!(e.histogram().len(), 1);
    assert_eq!(e.sample_batch(), 0);
    assert_eq!(e.total(), 1);
}

#[test]
fn batches_accumulate_across_calls() {
    let mut e = DirectEstimator::new(3, 9);
    e.sample_batches(10);
    e.sample_batches(15);
    assert_eq!(e.total(), 25);
}
