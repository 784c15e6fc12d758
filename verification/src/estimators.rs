//! Trusted boundary to sampling's adaptive and refinement estimators.
//!
//! The adaptive (Wang-Landau) estimator and the refinement (entropic)
//! estimator are external collaborators: opaque stateful samplers that the
//! scheduler only drives. The crate sees their types opaquely and calls the
//! three accessors below; everything decided from their answers is
//! verified code in the session module.

use vstd::prelude::*;

use sampling::Entropic;
use sampling::WangLandau;

verus! {

#[verifier::external_type_specification]
#[verifier::external_body]
#[verifier::reject_recursive_types(Hist)]
#[verifier::reject_recursive_types(Rng)]
#[verifier::reject_recursive_types(Ensemble)]
#[verifier::reject_recursive_types(S)]
#[verifier::reject_recursive_types(Res)]
#[verifier::reject_recursive_types(Energy)]
pub struct ExWangLandau1T<Hist, Rng, Ensemble, S, Res, Energy>(
    sampling::WangLandau1T<Hist, Rng, Ensemble, S, Res, Energy>,
);

#[verifier::external_type_specification]
#[verifier::external_body]
#[verifier::reject_recursive_types(Hist)]
#[verifier::reject_recursive_types(R)]
#[verifier::reject_recursive_types(E)]
#[verifier::reject_recursive_types(S)]
#[verifier::reject_recursive_types(Res)]
#[verifier::reject_recursive_types(Energy)]
pub struct ExEntropicSampling<Hist, R, E, S, Res, Energy>(
    sampling::EntropicSampling<Hist, R, E, S, Res, Energy>,
);

#[verifier::external_type_specification]
#[verifier::external_body]
#[verifier::reject_recursive_types(R)]
pub struct ExCoinFlipSequence<R>(sampling::examples::coin_flips::CoinFlipSequence<R>);

#[verifier::external_type_specification]
#[verifier::external_body]
pub struct ExCoinFlipMove(sampling::examples::coin_flips::CoinFlipMove);

/// The random stream both estimators draw from.
pub type CoinRng = rand_pcg::Lcg128Xsl64;

/// The ensemble both estimators walk on: a sequence of coin flips whose
/// energy is its heads count.
pub type CoinEnsemble = sampling::examples::coin_flips::CoinFlipSequence<CoinRng>;

/// The adaptive rare-event sampler over heads counts.
pub type AdaptiveEstimator = sampling::WangLandau1T<
    sampling::HistogramFast<usize>,
    CoinRng,
    CoinEnsemble,
    sampling::examples::coin_flips::CoinFlipMove,
    (),
    usize,
>;

/// The refinement sampler seeded from the adaptive estimator's state.
pub type RefinementEstimator = sampling::EntropicSampling<
    sampling::HistogramFast<usize>,
    CoinRng,
    CoinEnsemble,
    sampling::examples::coin_flips::CoinFlipMove,
    (),
    usize,
>;

/// Whether the adaptive estimator's modification factor has dropped to
/// its threshold: a function of the estimator value alone, read by the
/// WangLandau trait's is_finished.
pub uninterp spec fn adaptive_finished(wl: AdaptiveEstimator) -> bool;

/// The refinement estimator's step counter: how many refinement steps
/// were performed since the last refine, a function of the estimator
/// value alone.
pub uninterp spec fn refinement_steps(e: RefinementEstimator) -> usize;

/// Relies on the WangLandau trait's is_finished: whether the adaptive
/// estimator's modification factor has dropped to its threshold, i.e.
/// whether the run has converged.
#[verifier::external_body]
pub fn adaptive_is_finished(wl: &AdaptiveEstimator) -> (finished: bool)
    ensures
        finished == adaptive_finished(*wl),
{
    wl.is_finished()
}

/// Relies on the Entropic trait's step_counter: returns the estimator's
/// step counter.
#[verifier::external_body]
pub fn refinement_step_count(e: &RefinementEstimator) -> (steps: usize)
    ensures
        steps == refinement_steps(*e),
{
    e.step_counter()
}

/// Relies on EntropicSampling::refine_estimate: folds the gathered
/// histogram into the density estimate and resets the step counter to
/// zero; a second call right after the first is a no-op on the estimate.
#[verifier::external_body]
pub fn refinement_refine(e: &mut RefinementEstimator)
    ensures
        refinement_steps(*final(e)) == 0,
{
    let _ = e.refine_estimate();
}

} // verus!
