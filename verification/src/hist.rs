//! Trusted boundary to sampling's fixed-range histogram.
//!
//! The direct estimator keeps its hit counts in sampling's
//! `HistogramFast<usize>`. Verus sees that type through the names below:
//! `hist_counts` stands for the per-bin hit counts it holds, `hist_range`
//! for the inclusive bin range it was created with.

use vstd::prelude::*;

verus! {

#[verifier::external_type_specification]
#[verifier::external_body]
#[verifier::reject_recursive_types(T)]
pub struct ExHistogramFast<T>(sampling::HistogramFast<T>);

/// The per-bin hit counts the histogram holds, leftmost bin first.
pub uninterp spec fn hist_counts(h: sampling::HistogramFast<usize>) -> Seq<usize>;

/// The inclusive (left, right) bin borders the histogram was created with.
pub uninterp spec fn hist_range(h: sampling::HistogramFast<usize>) -> (usize, usize);

/// Whether `val` falls on one of the histogram's bins.
pub open spec fn hist_in_range(h: sampling::HistogramFast<usize>, val: usize) -> bool {
    hist_range(h).0 <= val <= hist_range(h).1
}

/// Relies on HistogramFast::new_inclusive: for usize borders with
/// left <= right it returns the histogram over bins left..=right with
/// every count zero; the second bound keeps the bin count inside usize,
/// which new_inclusive otherwise refuses.
#[verifier::external_body]
pub fn hist_new_inclusive(left: usize, right: usize) -> (h: sampling::HistogramFast<usize>)
    requires
        left <= right,
        right - left < usize::MAX,
    ensures
        hist_range(h) == (left, right),
        hist_counts(h) == Seq::new((right - left + 1) as nat, |k: int| 0usize),
{
    sampling::HistogramFast::new_inclusive(left, right).unwrap()
}

/// Relies on HistogramFast::increment_quiet: a value inside the range
/// raises the count of its bin by one, a value outside changes nothing.
/// The bound below keeps the crate's count increment from overflowing.
#[verifier::external_body]
pub fn hist_increment_quiet(h: &mut sampling::HistogramFast<usize>, val: usize)
    requires
        hist_in_range(*old(h), val) ==> val - hist_range(*old(h)).0 < hist_counts(
            *old(h),
        ).len(),
        hist_in_range(*old(h), val) ==> hist_counts(*old(h))[val - hist_range(*old(h)).0]
            < usize::MAX,
    ensures
        hist_range(*final(h)) == hist_range(*old(h)),
        hist_counts(*final(h)).len() == hist_counts(*old(h)).len(),
        hist_in_range(*old(h), val) ==> hist_counts(*final(h)) == hist_counts(*old(h)).update(
            val - hist_range(*old(h)).0,
            (hist_counts(*old(h))[val - hist_range(*old(h)).0] + 1) as usize,
        ),
        !hist_in_range(*old(h), val) ==> hist_counts(*final(h)) == hist_counts(*old(h)),
{
    h.increment_quiet(val)
}

/// Relies on the Histogram trait's hist accessor: a borrow of the per-bin
/// hit counts, leftmost bin first.
#[verifier::external_body]
pub fn hist_counts_ref(h: &sampling::HistogramFast<usize>) -> (v: &Vec<usize>)
    ensures
        v@ == hist_counts(*h),
{
    sampling::Histogram::hist(h)
}

} // verus!
