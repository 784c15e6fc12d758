//! The naive direct estimator: repeated batches of `n` fair coin flips,
//! binned by heads count.
//!
//! Each batch draws `n` independent coins, counts the heads, and records
//! the outcome in the histogram bin of that count. The bins cover 0..=n
//! inclusively, so an out-of-range bin cannot occur by construction, and
//! the total hit count equals the number of completed batches — which is
//! why the probability estimate `counts[k] / total` sums to exactly one
//! in linear space once a batch has been drawn.

use vstd::prelude::*;

use crate::hist::hist_counts;
use crate::hist::hist_counts_ref;
use crate::hist::hist_increment_quiet;
use crate::hist::hist_new_inclusive;
use crate::hist::hist_range;
use crate::rng::coin_flip;
use crate::rng::rng_from_seed;

verus! {

/// Sum of the per-bin hit counts, as a mathematical integer.
pub open spec fn count_sum(s: Seq<usize>) -> int
    decreases s.len(),
{
    if s.len() == 0 {
        0
    } else {
        s[0] + count_sum(s.skip(1))
    }
}

pub proof fn lemma_count_sum_nonneg(s: Seq<usize>)
    ensures
        count_sum(s) >= 0,
    decreases s.len(),
{
    if s.len() > 0 {
        lemma_count_sum_nonneg(s.skip(1));
    }
}

/// Replacing one count changes the sum by exactly the difference.
pub proof fn lemma_count_sum_update(s: Seq<usize>, k: int, x: usize)
    requires
        0 <= k < s.len(),
    ensures
        count_sum(s.update(k, x)) == count_sum(s) - s[k] + x,
    decreases s.len(),
{
    if k == 0 {
        assert(s.update(0, x).skip(1) =~= s.skip(1));
    } else {
        assert(s.update(k, x).skip(1) =~= s.skip(1).update(k - 1, x));
        lemma_count_sum_update(s.skip(1), k - 1, x);
    }
}

/// No single count exceeds the sum of all of them.
pub proof fn lemma_count_le_sum(s: Seq<usize>, k: int)
    requires
        0 <= k < s.len(),
    ensures
        s[k] <= count_sum(s),
    decreases k,
{
    lemma_count_sum_nonneg(s.skip(1));
    if k > 0 {
        lemma_count_le_sum(s.skip(1), k - 1);
    }
}

/// The sum of a suffix never exceeds the sum of the whole.
pub proof fn lemma_count_sum_skip_le(s: Seq<usize>, j: int)
    requires
        0 <= j <= s.len(),
    ensures
        0 <= count_sum(s.skip(j)) <= count_sum(s),
    decreases j,
{
    lemma_count_sum_nonneg(s.skip(j));
    if j > 0 {
        assert(s.skip(1).skip(j - 1) =~= s.skip(j));
        lemma_count_sum_skip_le(s.skip(1), j - 1);
        assert(count_sum(s) == s[0] + count_sum(s.skip(1)));
    } else {
        assert(s.skip(0) =~= s);
    }
}

pub proof fn lemma_count_sum_all_zero(s: Seq<usize>)
    requires
        forall|k: int| 0 <= k < s.len() ==> s[k] == 0,
    ensures
        count_sum(s) == 0,
    decreases s.len(),
{
    if s.len() > 0 {
        lemma_count_sum_all_zero(s.skip(1));
    }
}

/// Monte Carlo sampler for the heads count of `n` fair coin flips, with
/// its own seeded random stream and a fixed-range histogram over 0..=n.
pub struct DirectEstimator {
    pub n: usize,
    pub rng: rand_pcg::Pcg64,
    pub hist: sampling::HistogramFast<usize>,
}

impl DirectEstimator {
    /// The per-bin hit counts: entry k holds how many batches produced
    /// exactly k heads.
    pub open spec fn counts(self) -> Seq<usize> {
        hist_counts(self.hist)
    }

    /// Number of completed sample batches: every batch hits exactly one
    /// of the bins.
    pub open spec fn spec_total(self) -> int {
        count_sum(self.counts())
    }

    /// The histogram covers exactly the bins 0..=n, and the batch count
    /// still fits in a machine word.
    pub open spec fn wf(self) -> bool {
        &&& hist_range(self.hist) == (0usize, self.n)
        &&& self.counts().len() == self.n + 1
        &&& self.spec_total() <= usize::MAX
    }

    /// A fresh estimator for sequences of `n` coins: empty histogram, own
    /// stream seeded from `seed`.
    pub fn new(n: usize, seed: u64) -> (e: Self)
        requires
            n < usize::MAX,
        ensures
            e.wf(),
            e.n == n,
            e.spec_total() == 0,
            e.counts() == Seq::new((n + 1) as nat, |k: int| 0usize),
    {
        let e = DirectEstimator {
            n,
            rng: rng_from_seed(seed),
            hist: hist_new_inclusive(0, n),
        };
        proof {
            lemma_count_sum_all_zero(e.counts());
        }
        e
    }

    /// Draws one batch of `n` coins and records its heads count: exactly
    /// that one bin's count rises by one.
    pub fn sample_batch(&mut self) -> (k: usize)
        requires
            old(self).wf(),
            old(self).spec_total() < usize::MAX,
        ensures
            final(self).wf(),
            final(self).n == old(self).n,
            k <= old(self).n,
            final(self).counts() == old(self).counts().update(
                k as int,
                (old(self).counts()[k as int] + 1) as usize,
            ),
            final(self).spec_total() == old(self).spec_total() + 1,
    {
        let n = self.n;
        let mut heads: usize = 0;
        let mut j: usize = 0;
        while j < n
            invariant
                heads <= j <= n,
                self.n == old(self).n,
                n == self.n,
                self.hist == old(self).hist,
            decreases n - j,
        {
            if coin_flip(&mut self.rng) {
                heads = heads + 1;
            }
            j = j + 1;
        }
        proof {
            lemma_count_le_sum(self.counts(), heads as int);
        }
        let ghost before = self.counts();
        hist_increment_quiet(&mut self.hist, heads);
        proof {
            lemma_count_sum_update(before, heads as int, (before[heads as int] + 1) as usize);
        }
        heads
    }

    /// Draws `batches` consecutive batches: every bin's count is
    /// non-decreasing, and the total rises by exactly `batches`.
    pub fn sample_batches(&mut self, batches: usize)
        requires
            old(self).wf(),
            old(self).spec_total() + batches <= usize::MAX,
        ensures
            final(self).wf(),
            final(self).n == old(self).n,
            final(self).counts().len() == old(self).counts().len(),
            final(self).spec_total() == old(self).spec_total() + batches,
            forall|k: int|
                0 <= k < old(self).counts().len() ==> old(self).counts()[k]
                    <= #[trigger] final(self).counts()[k],
    {
        let mut done: usize = 0;
        while done < batches
            invariant
                done <= batches,
                self.wf(),
                self.n == old(self).n,
                self.counts().len() == old(self).counts().len(),
                self.spec_total() == old(self).spec_total() + done,
                old(self).spec_total() + batches <= usize::MAX,
                forall|k: int|
                    0 <= k < old(self).counts().len() ==> old(self).counts()[k]
                        <= #[trigger] self.counts()[k],
            decreases batches - done,
        {
            let ghost prev = self.counts();
            let k = self.sample_batch();
            proof {
                lemma_count_le_sum(prev, k as int);
                assert forall|j: int|
                    0 <= j < old(self).counts().len() implies old(self).counts()[j]
                    <= #[trigger] self.counts()[j] by {
                    assert(self.counts() == prev.update(k as int, (prev[k as int] + 1) as usize));
                    assert(prev[k as int] + 1 <= usize::MAX);
                    assert(prev[j] <= self.counts()[j]);
                }
            }
            done = done + 1;
        }
    }

    /// The histogram of observed heads counts.
    pub fn histogram(&self) -> (v: &Vec<usize>)
        ensures
            v@ == self.counts(),
    {
        hist_counts_ref(&self.hist)
    }

    /// Number of completed sample batches, computed as the histogram's
    /// total hit count.
    pub fn total(&self) -> (t: usize)
        requires
            self.wf(),
        ensures
            t == self.spec_total(),
    {
        let v = hist_counts_ref(&self.hist);
        let len = v.len();
        let mut t: usize = 0;
        let mut idx: usize = len;
        while idx > 0
            invariant
                idx <= len,
                len == v@.len(),
                v@ == self.counts(),
                self.wf(),
                t == count_sum(v@.skip(idx as int)),
            decreases idx,
        {
            proof {
                lemma_count_sum_skip_le(v@, idx - 1);
                assert(v@.skip(idx as int - 1).skip(1) =~= v@.skip(idx as int));
            }
            idx = idx - 1;
            t = t + v[idx];
        }
        proof {
            assert(v@.skip(0) =~= v@);
        }
        t
    }

    /// The exact probability weights of the estimate: the per-bin hit
    /// counts together with their total. In linear probability space the
    /// estimate at bin k is `counts[k] / total`, so after at least one
    /// batch the estimate sums over all bins to exactly `total / total`,
    /// that is to one.
    pub fn probability_weights(&self) -> (r: (Vec<usize>, usize))
        requires
            self.wf(),
        ensures
            r.0@ == self.counts(),
            r.1 == self.spec_total(),
            count_sum(r.0@) == r.1,
    {
        let v = hist_counts_ref(&self.hist);
        let len = v.len();
        let mut out: Vec<usize> = Vec::new();
        let mut idx: usize = 0;
        while idx < len
            invariant
                idx <= len,
                len == v@.len(),
                v@ == self.counts(),
                out@ =~= v@.take(idx as int),
            decreases len - idx,
        {
            out.push(v[idx]);
            idx = idx + 1;
        }
        proof {
            assert(v@.take(len as int) =~= v@);
        }
        let t = self.total();
        (out, t)
    }
}

} // verus!
