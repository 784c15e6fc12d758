use coin_sim::estimators::adaptive_is_finished;
use coin_sim::estimators::AdaptiveEstimator;

use rand::SeedableRng;
use rand_pcg::Pcg64;
use sampling::examples::coin_flips::CoinFlipSequence;
use sampling::norm_log10_sum_to_1;
use sampling::HistUsizeFast;
use sampling::WangLandau;
use sampling::WangLandau1T;
use statrs::distribution::Binomial;
use statrs::distribution::Discrete;

fn build_adaptive(n: usize, seed: u64, step_size: usize, threshold: f64) -> AdaptiveEstimator {
    let hist = HistUsizeFast::new_inclusive(0, n).unwrap();
    let mut rng = Pcg64::seed_from_u64(seed);
    let ensemble = CoinFlipSequence::new(n, Pcg64::from_rng(&mut rng));
    let mut wl: AdaptiveEstimator =
        WangLandau1T::new(threshold, ensemble, Pcg64::from_rng(&mut rng), step_size, hist, 100)
            .unwrap();
    wl.init_greedy_heuristic(|seq| Some(seq.head_count()), Some(10_000)).unwrap();
    wl
}

fn analytic_log10_curve(n: usize) -> Vec<f64> {
    let binomial = Binomial::new(0.5, n as u64).unwrap();
    (0..=n).map(|k| std::f64::consts::LOG10_E * binomial.ln_pmf(k as u64)).collect()
}

#[test]
fn adaptive_setup_succeeds_and_converges_to_a_normalized_density() {
    // the bounded greedy setup must find a valid state within 10000
    // attempts — build_adaptive unwraps exactly that
    let mut wl = build_adaptive(10, 0, 1, 1e-6);
    assert!(!adaptive_is_finished(&wl));
    wl.wang_landau_while_acc(|seq, step, energy| seq.update_head_count(step, energy), |_| true);
    assert!(adaptive_is_finished(&wl));
    assert!(wl.log_f() <= 1e-6);
    let mut d = wl.log_density_base10();
    assert_eq!(d.len(), 11);
    norm_log10_sum_to_1(&mut d);
    let s: f64 = d.iter().map(|v| 10f64.powf(*v)).sum();
    assert!((s - 1.0).abs() <= 1e-9);
}

#[test]
fn construction_is_deterministic_under_a_fixed_seed() {
    let a = build_adaptive(8, 12345, 2, 0.1);
    let b = build_adaptive(8, 12345, 2, 0.1);
    assert_eq!(a.log_density_base10(), b.log_density_base10());
    assert_eq!(a.step_counter(), b.step_counter());
    let mut a = a;
    let mut b = b;
    a.wang_landau_while_acc(
        |seq, step, energy| seq.update_head_count(step, energy),
        |s| s.step_counter() < 2000,
    );
    b.wang_landau_while_acc(
        |seq, step, energy| seq.update_head_count(step, energy),
        |s| s.step_counter() < 2000,
    );
    assert_eq!(a.log_density_base10(), b.log_density_base10());
}

#[test]
fn normalization_is_idempotent_within_tolerance() {
    let mut curve: Vec<f64> = analytic_log10_curve(10).iter().map(|v| v + 3.75).collect();
    norm_log10_sum_to_1(&mut curve);
    let once = curve.clone();
    norm_log10_sum_to_1(&mut curve);
    for (a, b) in curve.iter().zip(once.iter()) {
        assert!((a - b).abs() <= 1e-9);
    }
    let s: f64 = curve.iter().map(|v| 10f64.powf(*v)).sum();
    assert!((s - 1.0).abs() <= 1e-9);
}
