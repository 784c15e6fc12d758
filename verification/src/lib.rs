//! Core of an interactive Monte Carlo exploration of the heads-count
//! distribution of `N` fair coin flips.
//!
//! The crate owns the logic that turns raw estimator state into comparable
//! probability curves: pause/resume wall-clock accounting, the naive direct
//! estimator's histogram, the scheduler's per-tick decisions, and the
//! integer part of the perturbed reference-curve reconstruction. Floating
//! point rendering of the curves lives with the caller.

use vstd::prelude::*;

pub mod clock;
pub mod direct;
pub mod estimators;
pub mod hist;
pub mod noise;
pub mod rng;
pub mod session;

verus! {

/// Replaces a digit or minus sign by its Unicode superscript form, for
/// exponent labels such as `10⁻³`; any other character is returned unchanged.
pub fn exchange(c: char) -> (r: char)
    ensures
        c == '0' ==> r == '⁰',
        c == '1' ==> r == '¹',
        c == '2' ==> r == '²',
        c == '3' ==> r == '³',
        c == '4' ==> r == '⁴',
        c == '5' ==> r == '⁵',
        c == '6' ==> r == '⁶',
        c == '7' ==> r == '⁷',
        c == '8' ==> r == '⁸',
        c == '9' ==> r == '⁹',
        c == '-' ==> r == '⁻',
        !(c == '0' || c == '1' || c == '2' || c == '3' || c == '4' || c == '5'
            || c == '6' || c == '7' || c == '8' || c == '9' || c == '-') ==> r == c,
{
    match c {
        '0' => '⁰',
        '1' => '¹',
        '2' => '²',
        '3' => '³',
        '4' => '⁴',
        '5' => '⁵',
        '6' => '⁶',
        '7' => '⁷',
        '8' => '⁸',
        '9' => '⁹',
        '-' => '⁻',
        _ => c,
    }
}

} // verus!
