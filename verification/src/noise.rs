//! Integer core of the perturbed reference-curve reconstruction.
//!
//! The analytic curve is first reduced (by the caller) to one lookup-table
//! index per adjacent pair of bins. This module perturbs that index
//! sequence with seeded, conservative noise: whatever amount is taken from
//! an entry is added to its left neighbour, so the total over the whole
//! sequence is preserved exactly, for every seed and every noise bound.

use vstd::arithmetic::power2::lemma2_to64;
use vstd::arithmetic::power2::lemma_pow2_strictly_increases;
use vstd::arithmetic::power2::pow2;
use vstd::prelude::*;

use crate::rng::rand_below;
use crate::rng::rng_from_seed;

verus! {

/// The largest admitted magnitude of an index entry and of the noise bound;
/// keeps every intermediate value inside `i64`.
pub const INDEX_LIMIT: i64 = 0x1000_0000_0000_0000;

/// The largest admitted sequence length; keeps the acceptance arithmetic
/// inside `u64`.
pub const MAX_CURVE_LEN: usize = 0x0200_0001;

/// Sum of the entries, as a mathematical integer.
pub open spec fn index_sum(s: Seq<i64>) -> int
    decreases s.len(),
{
    if s.len() == 0 {
        0
    } else {
        s[0] + index_sum(s.skip(1))
    }
}

/// Replacing one entry changes the sum by exactly the difference.
pub proof fn lemma_index_sum_update(s: Seq<i64>, k: int, x: i64)
    requires
        0 <= k < s.len(),
    ensures
        index_sum(s.update(k, x)) == index_sum(s) - s[k] + x,
    decreases s.len(),
{
    if k == 0 {
        assert(s.update(0, x).skip(1) =~= s.skip(1));
    } else {
        assert(s.update(k, x).skip(1) =~= s.skip(1).update(k - 1, x));
        lemma_index_sum_update(s.skip(1), k - 1, x);
    }
}

/// Numerator of the exact acceptance probability at interior position `i`
/// of a sequence whose last position is `b`: with a = |b − 2i|, the chance
/// of perturbing is min(1, (40a + 3b)² / 1600b²), which equals
/// min(1, p²) for p = 2·|1/2 − i/b| + 3/40 — more likely near the edges.
pub open spec fn accept_numerator(i: int, b: int) -> int {
    let a = if 2 * i >= b {
        2 * i - b
    } else {
        b - 2 * i
    };
    (40 * a + 3 * b) * (40 * a + 3 * b)
}

/// Denominator of the exact acceptance probability.
pub open spec fn accept_denominator(b: int) -> int {
    1600 * b * b
}

/// Computes the acceptance fraction for position `i` of `0..=b` in 64-bit
/// integers, exactly.
fn accept_threshold(i: usize, b: usize) -> (t: (u64, u64))
    requires
        0 < b < MAX_CURVE_LEN,
        i <= b,
    ensures
        t.0 == accept_numerator(i as int, b as int),
        t.1 == accept_denominator(b as int),
        t.1 >= 1,
{
    let bi = b as u64;
    let ii = i as u64;
    let a = if 2 * ii >= bi {
        2 * ii - bi
    } else {
        bi - 2 * ii
    };
    let s = 40 * a + 3 * bi;
    assert(s <= 43 * 0x0200_0000) by {
        assert(a <= bi);
    }
    assert(s * s <= 43 * 0x0200_0000 * (43 * 0x0200_0000)) by (nonlinear_arith)
        requires
            s <= 43 * 0x0200_0000,
    ;
    assert(1600 * bi * bi <= 1600 * 0x0200_0000 * 0x0200_0000) by (nonlinear_arith)
        requires
            bi <= 0x0200_0000,
    ;
    assert(1600 * bi * bi >= 1) by (nonlinear_arith)
        requires
            bi >= 1,
    ;
    (s * s, 1600 * bi * bi)
}

/// Perturbs the index sequence in place with noise drawn from the stream
/// seeded by `noise_seed`, walking the interior positions left to right.
/// At an accepted position `i`, an amount `v` drawn uniformly from
/// `0..=noise_max` moves from entry `i` to entry `i − 1`, so the total is
/// conserved exactly; the last entry is never touched, and no entry drifts
/// by more than `noise_max`. Sequences too short to have an interior
/// (fewer than three entries) are returned unchanged.
pub fn inject_pair_noise(indices: &mut Vec<i64>, noise_max: u64, noise_seed: u64)
    requires
        old(indices)@.len() <= MAX_CURVE_LEN,
        noise_max <= INDEX_LIMIT,
        forall|k: int|
            0 <= k < old(indices)@.len() ==> -INDEX_LIMIT <= #[trigger] old(indices)@[k]
                <= INDEX_LIMIT,
    ensures
        final(indices)@.len() == old(indices)@.len(),
        index_sum(final(indices)@) == index_sum(old(indices)@),
        old(indices)@.len() > 0 ==> final(indices)@.last() == old(indices)@.last(),
        forall|k: int|
            0 <= k < old(indices)@.len() ==> old(indices)@[k] - noise_max
                <= #[trigger] final(indices)@[k] <= old(indices)@[k] + noise_max,
        old(indices)@.len() < 3 ==> final(indices)@ == old(indices)@,
{
    let len = indices.len();
    if len < 3 {
        return ;
    }
    let mut rng = rng_from_seed(noise_seed);
    let b = len - 1;
    let mut i: usize = 1;
    while i < b
        invariant
            1 <= i <= b,
            b == len - 1,
            3 <= len <= MAX_CURVE_LEN,
            indices@.len() == len,
            noise_max <= INDEX_LIMIT,
            forall|k: int|
                0 <= k < len ==> -INDEX_LIMIT <= #[trigger] old(indices)@[k] <= INDEX_LIMIT,
            index_sum(indices@) == index_sum(old(indices)@),
            forall|k: int| i <= k < len ==> indices@[k] == old(indices)@[k],
            old(indices)@[i - 1] - noise_max <= indices@[i - 1] <= old(indices)@[i - 1],
            forall|k: int|
                0 <= k < i - 1 ==> old(indices)@[k] - noise_max <= #[trigger] indices@[k]
                    <= old(indices)@[k] + noise_max,
        decreases b - i,
    {
        let (num, den) = accept_threshold(i, b);
        let r = rand_below(&mut rng, den);
        if r < num {
            let v = rand_below(&mut rng, noise_max + 1) as i64;
            let ghost s0 = indices@;
            let left = indices[i - 1];
            indices[i - 1] = left + v;
            proof {
                lemma_index_sum_update(s0, i - 1, (left + v) as i64);
            }
            let ghost s1 = indices@;
            let cur = indices[i];
            indices[i] = cur - v;
            proof {
                lemma_index_sum_update(s1, i as int, (cur - v) as i64);
            }
        }
        i = i + 1;
    }
}

/// Whether plot position `idx` of a curve with `axis_len` bins lies left
/// of the curve's centre. The reconstruction of an absolute curve from
/// pairwise deltas walks left to right and flips the sign of each step at
/// the centre, mirroring the symmetric analytic curve.
pub fn left_of_center(idx: usize, axis_len: usize) -> (r: bool)
    ensures
        r == (2 * idx < axis_len),
{
    if axis_len == 0 {
        false
    } else {
        idx <= (axis_len - 1) / 2
    }
}

/// Number of entries in the monotone lookup table that encodes adjacent
/// log-probability differences at resolution `f_steps`: 2^f_steps · 8 + 1.
pub fn table_len(f_steps: u32) -> (n: usize)
    requires
        f_steps <= 28,
    ensures
        n == pow2(f_steps as nat) * 8 + 1,
{
    let mut v: usize = 8;
    let mut e: u32 = 0;
    proof {
        lemma2_to64();
    }
    while e < f_steps
        invariant
            e <= f_steps,
            f_steps <= 28,
            v == 8 * pow2(e as nat),
        decreases f_steps - e,
    {
        proof {
            lemma2_to64();
            let e1: nat = (e + 1) as nat;
            if e1 < 28 {
                lemma_pow2_strictly_increases(e1, 28);
            }
            assert(pow2((e + 1) as nat) == 2 * pow2(e as nat));
        }
        v = v * 2;
        e = e + 1;
    }
    v + 1
}

} // verus!
