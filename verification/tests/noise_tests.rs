use coin_sim::noise::inject_pair_noise;
use coin_sim::noise::left_of_center;
use coin_sim::noise::table_len;

fn sum(v: &[i64]) -> i128 {
    v.iter().map(|&x| x as i128).sum()
}

#[test]
fn noise_injection_conserves_the_total_exactly() {
    let base: Vec<i64> = vec![5, 3, 9, 1, 7, 2, 8, 0, 4, 6, 11];
    for seed in 0..20u64 {
        for &noise_max in &[0u64, 1, 5, 30] {
            let mut v = base.clone();
            inject_pair_noise(&mut v, noise_max, seed);
            assert_eq!(sum(&v), sum(&base));
            assert_eq!(v.len(), base.len());
            assert_eq!(v.last(), base.last());
            for (a, b) in v.iter().zip(base.iter()) {
                assert!((a - b).unsigned_abs() <= noise_max);
            }
        }
    }
}

#[test]
fn noise_injection_is_deterministic_per_seed() {
    let base: Vec<i64> = (0..1000).map(|k| (k * 37) % 101).collect();
    let mut a = base.clone();
    let mut b = base.clone();
    inject_pair_noise(&mut a, 30, 42);
    inject_pair_noise(&mut b, 30, 42);
    assert_eq!(a, b);
}

#[test]
fn noise_injection_actually_perturbs_a_long_curve() {
    let base: Vec<i64> = vec![100; 1001];
    let mut v = base.clone();
    inject_pair_noise(&mut v, 30, 7);
    assert_eq!(sum(&v), sum(&base));
    assert_ne!(v, base);
}

#[test]
fn zero_noise_bound_changes_nothing() {
    let base: Vec<i64> = (0..50).collect();
    let mut v = base.clone();
    inject_pair_noise(&mut v, 0, 3);
    assert_eq!(v, base);
}

#[test]
fn curves_without_an_interior_are_returned_unchanged() {
    for base in [vec![], vec![4], vec![4, 9]] {
        let mut v = base.clone();
        inject_pair_noise(&mut v, 30, 1);
        assert_eq!(v, base);
    }
}

#[test]
fn minimal_interior_curve_is_conserved() {
    let base: Vec<i64> = vec![2, 5, 3];
    for seed in 0..50u64 {
        let mut v = base.clone();
        inject_pair_noise(&mut v, 10, seed);
        assert_eq!(sum(&v), sum(&base));
        assert_eq!(v[2], 3);
    }
}

#[test]
fn conservation_holds_for_negative_entries_and_large_bounds() {
    let base: Vec<i64> = vec![-5, 3, -9, 0, 7, -2, 8, -11, 4];
    for seed in 0..10u64 {
        let mut v = base.clone();
        inject_pair_noise(&mut v, 1 << 40, seed);
        assert_eq!(sum(&v), sum(&base));
        assert_eq!(v.last(), base.last());
    }
}

#[test]
fn the_centre_splits_the_walk_direction() {
    assert!(left_of_center(0, 11));
    assert!(left_of_center(5, 11));
    assert!(!left_of_center(6, 11));
    assert!(left_of_center(0, 2));
    assert!(!left_of_center(1, 2));
    assert!(!left_of_center(0, 0));
}

#[test]
fn lookup_table_length_follows_the_resolution() {
    assert_eq!(table_len(0), 9);
    assert_eq!(table_len(1), 17);
    assert_eq!(table_len(3), 65);
    assert_eq!(table_len(7), 1025);
}
