//! Session identity and the scheduler's per-tick decisions.
//!
//! A simulation session is created once per start action from four
//! parameters (sequence length, seed, step size, convergence threshold)
//! and fully replaces any earlier session. The scheduler gives the three
//! estimators one shared wall-clock budget per tick; the decisions taken
//! around that budget — whether to run at all, whether to record a
//! convergence sample, whether the refinement estimator is due for its
//! periodic refine — are made here, on plain values.

use vstd::prelude::*;

use crate::estimators::adaptive_finished;
use crate::estimators::adaptive_is_finished;
use crate::estimators::refinement_refine;
use crate::estimators::refinement_step_count;
use crate::estimators::refinement_steps;
use crate::estimators::AdaptiveEstimator;
use crate::estimators::RefinementEstimator;

verus! {

/// Why a session could not be created.
#[derive(Clone, Copy, Debug, PartialEq, Eq, Structural)]
pub enum SessionError {
    /// The parameters describe no valid histogram range: rejected before
    /// any estimator is built.
    DegenerateInput,
    /// The adaptive estimator found no valid initial state within its
    /// bounded number of attempts.
    SetupFailure,
}

/// Axis scale of a displayed curve or histogram.
#[derive(Clone, Copy, Debug, PartialEq, Eq, Structural)]
pub enum Scale {
    Log,
    Lin,
}

/// The immutable identity of one session.
#[derive(Clone, Copy, Debug, PartialEq, Eq, Structural)]
pub struct SessionParams {
    /// Number of coins flipped per trial; the curves have n + 1 bins.
    pub n: usize,
    /// Seed of every random stream of the session.
    pub seed: u64,
    /// Markov step size handed to both adaptive samplers.
    pub step_size: usize,
}

/// Validates a session's parameters: the sequence length and the step
/// size must be positive, and the histogram over 0..=n must fit in
/// memory. Rejected parameters are a degenerate input, surfaced to the
/// caller before any estimator is built.
pub fn check_params(p: SessionParams) -> (r: Result<SessionParams, SessionError>)
    ensures
        r is Ok <==> (1 <= p.n < usize::MAX && p.step_size >= 1),
        r matches Ok(q) ==> q == p,
        r matches Err(e) ==> e == SessionError::DegenerateInput,
{
    if p.n >= 1 && p.n < usize::MAX && p.step_size >= 1 {
        Ok(p)
    } else {
        Err(SessionError::DegenerateInput)
    }
}

/// What the scheduler decided for one tick, before any worker starts.
pub struct TickDecision {
    /// Whether the three estimator workers run this tick at all.
    pub run_estimators: bool,
    /// Whether a (elapsed time, log_f) convergence sample is recorded
    /// after the workers have joined.
    pub record_log_f: bool,
}

/// The scheduler's go/no-go for one tick: when paused, no estimator advances
/// and nothing is recorded; otherwise all three estimators run against
/// the shared deadline, and a convergence sample is recorded as long as
/// the adaptive estimator has not finished.
pub fn plan_tick(paused: bool, adaptive_finished: bool) -> (d: TickDecision)
    ensures
        d.run_estimators == !paused,
        d.record_log_f == (!paused && !adaptive_finished),
{
    TickDecision { run_estimators: !paused, record_log_f: !paused && !adaptive_finished }
}

/// Reads the adaptive estimator's convergence flag and plans the tick
/// from it. Only the pause decides whether the estimators run; a
/// convergence sample is recorded exactly on a running tick whose
/// adaptive run has not converged yet.
pub fn plan_tick_for(paused: bool, adaptive: &AdaptiveEstimator) -> (d: TickDecision)
    ensures
        d.run_estimators == !paused,
        d.record_log_f == (!paused && !adaptive_finished(*adaptive)),
{
    let finished = adaptive_is_finished(adaptive);
    plan_tick(paused, finished)
}

/// The cooperative cancellation predicate each worker checks once per
/// outer iteration: keep running while the tick's elapsed wall-clock time
/// is still below the shared budget. Workers may overshoot the budget by
/// at most one iteration, never preempted mid-step.
pub fn within_budget(elapsed_ms: u64, budget_ms: u64) -> (r: bool)
    ensures
        r == (elapsed_ms < budget_ms),
{
    elapsed_ms < budget_ms
}

/// Whether the refinement estimator's periodic refine is due: its step
/// counter has crossed the configured threshold.
pub fn refine_due(step_count: usize, refine_threshold: usize) -> (due: bool)
    ensures
        due == (step_count > refine_threshold),
{
    step_count > refine_threshold
}

/// The end-of-tick refine check: performs one refine exactly when the
/// refinement estimator's step counter has crossed the threshold, and
/// nothing otherwise. Refining resets the counter to zero, so one
/// crossing triggers at most one refine. Returns whether a refine was
/// performed.
pub fn maybe_refine(e: &mut RefinementEstimator, refine_threshold: usize) -> (refined: bool)
    ensures
        refined == (refinement_steps(*old(e)) > refine_threshold),
        refined ==> refinement_steps(*final(e)) == 0,
        !refined ==> *final(e) == *old(e),
{
    let steps = refinement_step_count(&*e);
    let due = refine_due(steps, refine_threshold);
    if due {
        refinement_refine(e);
    }
    due
}

/// Length of the pairwise view of a curve: one entry per adjacent pair of
/// bins. A curve with fewer than two entries has no pairs, so its view is
/// empty — the pipeline must special-case the smallest sequence lengths
/// rather than underflow.
pub fn pairwise_len(curve_len: usize) -> (r: usize)
    ensures
        curve_len >= 1 ==> r == curve_len - 1,
        curve_len == 0 ==> r == 0,
{
    if curve_len == 0 {
        0
    } else {
        curve_len - 1
    }
}

/// The configuration the display layer hands into the pipeline and the
/// scheduler every tick; one explicit struct, no ambient state.
pub struct SimConfig {
    /// Session identity for the next start action.
    pub params: SessionParams,
    /// Probability axis: log10 or linear.
    pub scale: Scale,
    /// Show adjacent-pair differences instead of absolute probabilities.
    pub pairs: bool,
    /// Axis scale of the hit-count histograms.
    pub hist_scale: Scale,
    /// Show the direct estimator's histogram as well.
    pub show_direct_hist: bool,
    /// Plot the convergence series on a log10 axis.
    pub log_f_logscale: bool,
    /// Step threshold that makes the refinement estimator's periodic
    /// refine due.
    pub refine_threshold: usize,
    /// Show the perturbed synthetic reference curve.
    pub show_noise_curve: bool,
    /// Resolution of the noise curve's lookup table.
    pub f_steps: u32,
    /// Largest amount one noise transfer may move.
    pub noise_max: u64,
    /// Seed of the noise curve's random stream.
    pub noise_seed: u64,
    /// Cap the reconstructed noise curve at probability one.
    pub limit_to_1: bool,
}

impl SimConfig {
    /// The configuration a fresh display starts from.
    pub open spec fn initial() -> SimConfig {
        SimConfig {
            params: SessionParams { n: 1500, seed: 834628956578u64, step_size: 1 },
            scale: Scale::Log,
            pairs: false,
            hist_scale: Scale::Lin,
            show_direct_hist: false,
            log_f_logscale: false,
            refine_threshold: 30000000,
            show_noise_curve: false,
            f_steps: 0,
            noise_max: 0,
            noise_seed: 1238947u64,
            limit_to_1: false,
        }
    }
}

impl Default for SimConfig {
    fn default() -> (c: Self)
        ensures
            c == SimConfig::initial(),
    {
        SimConfig {
            params: SessionParams { n: 1500, seed: 834628956578, step_size: 1 },
            scale: Scale::Log,
            pairs: false,
            hist_scale: Scale::Lin,
            show_direct_hist: false,
            log_f_logscale: false,
            refine_threshold: 30000000,
            show_noise_curve: false,
            f_steps: 0,
            noise_max: 0,
            noise_seed: 1238947,
            limit_to_1: false,
        }
    }
}

} // verus!
