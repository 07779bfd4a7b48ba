//! Algorithm termination handling. See [`TerminationReason`] for full documentation.
//!
//! A check takes three steps. [`TerminationCheck::plan`] says what has to be measured:
//! which numbers to subtract, which axis to perturb, which parts of the histories to
//! take medians of. The caller does that arithmetic and hands the results over as
//! [`Measurements`]. [`TerminationCheck::check_termination_criteria`] then compares
//! them with the tolerances and lists the reasons to stop.

use crate::extremes::{extremes, highest, leading_extremes, lowest};
use crate::parameters::Parameters;
use crate::scalar::Scalar;
use crate::state::State;
use std::collections::VecDeque;
use vstd::prelude::*;

verus! {

/// Represents a reason for the algorithm terminating. Most of these are for preventing
/// numerical instability, while `Tol*` are problem-dependent parameters and `Max*` are
/// for bounding iteration.
#[derive(Clone, Copy, Debug, PartialEq, Eq, Hash, Structural)]
pub enum TerminationReason {
    /// The maximum number of objective function evaluations has been reached.
    MaxFunctionEvals,
    /// The maximum number of generations has been reached.
    MaxGenerations,
    /// The algorithm has been running for longer than the time limit.
    MaxTime,
    /// The target objective function value has been reached.
    FunTarget,
    /// The range of function values of the latest generation and the range of the best
    /// function values of many consecutive generations lie below `tol_fun`. Indicates
    /// that the function value has stopped changing significantly and that the function
    /// value spread of each generation is equally insignificant.
    TolFun,
    /// Like `TolFun`, but the range is `tol_fun_rel * (first_median - best_median)`
    /// (i.e. it is relative to the overall improvement in the median objective
    /// function value).
    TolFunRel,
    /// The range of best function values in many consecutive generations is lower than
    /// `tol_fun_hist` (i.e. little to no improvement or change is occurring).
    TolFunHist,
    /// The standard deviation of the distribution is smaller than `tol_x` in every
    /// coordinate and the mean has not moved much recently. Indicates that the
    /// algorithm has converged.
    TolX,
    /// The best and median function values have not improved significantly over many
    /// generations.
    Stagnation,
    /// The maximum standard deviation across all distribution axes increased by a
    /// factor of more than `tol_x_up`. This is likely due to the function diverging or
    /// the initial step size being set far too small. In the latter case a restart
    /// with a larger step size may be useful.
    TolXUp,
    /// The standard deviation in any principal axis in the distribution is too small
    /// to perform any meaningful calculations.
    NoEffectAxis,
    /// The standard deviation in any coordinate axis in the distribution is too small
    /// to perform any meaningful calculations.
    NoEffectCoord,
    /// The condition number of the covariance matrix exceeds `tol_condition_cov` or is
    /// non-normal.
    TolConditionCov,
    /// The objective function has returned an invalid value.
    InvalidFunctionValue,
    /// The covariance matrix is not positive definite.
    PosDefCov,
}

impl TerminationReason {
    /// The name of the reason.
    pub open spec fn label(self) -> Seq<char> {
        match self {
            TerminationReason::MaxFunctionEvals => "MaxFunctionEvals"@,
            TerminationReason::MaxGenerations => "MaxGenerations"@,
            TerminationReason::MaxTime => "MaxTime"@,
            TerminationReason::FunTarget => "FunTarget"@,
            TerminationReason::TolFun => "TolFun"@,
            TerminationReason::TolFunRel => "TolFunRel"@,
            TerminationReason::TolFunHist => "TolFunHist"@,
            TerminationReason::TolX => "TolX"@,
            TerminationReason::Stagnation => "Stagnation"@,
            TerminationReason::TolXUp => "TolXUp"@,
            TerminationReason::NoEffectAxis => "NoEffectAxis"@,
            TerminationReason::NoEffectCoord => "NoEffectCoord"@,
            TerminationReason::TolConditionCov => "TolConditionCov"@,
            TerminationReason::InvalidFunctionValue => "InvalidFunctionValue"@,
            TerminationReason::PosDefCov => "PosDefCov"@,
        }
    }

    /// The place of the reason in the list that a check returns; the two reasons that
    /// no check finds come last.
    pub open spec fn rank(self) -> nat {
        match self {
            TerminationReason::MaxFunctionEvals => 0,
            TerminationReason::MaxGenerations => 1,
            TerminationReason::MaxTime => 2,
            TerminationReason::FunTarget => 3,
            TerminationReason::TolFun => 4,
            TerminationReason::TolFunRel => 5,
            TerminationReason::TolX => 6,
            TerminationReason::TolConditionCov => 7,
            TerminationReason::NoEffectAxis => 8,
            TerminationReason::NoEffectCoord => 9,
            TerminationReason::TolFunHist => 10,
            TerminationReason::Stagnation => 11,
            TerminationReason::TolXUp => 12,
            TerminationReason::InvalidFunctionValue => 13,
            TerminationReason::PosDefCov => 14,
        }
    }

    /// The reason that has the given rank; the last one for a rank that none has.
    pub open spec fn at_rank(rank: nat) -> TerminationReason {
        if rank == 0 {
            TerminationReason::MaxFunctionEvals
        } else if rank == 1 {
            TerminationReason::MaxGenerations
        } else if rank == 2 {
            TerminationReason::MaxTime
        } else if rank == 3 {
            TerminationReason::FunTarget
        } else if rank == 4 {
            TerminationReason::TolFun
        } else if rank == 5 {
            TerminationReason::TolFunRel
        } else if rank == 6 {
            TerminationReason::TolX
        } else if rank == 7 {
            TerminationReason::TolConditionCov
        } else if rank == 8 {
            TerminationReason::NoEffectAxis
        } else if rank == 9 {
            TerminationReason::NoEffectCoord
        } else if rank == 10 {
            TerminationReason::TolFunHist
        } else if rank == 11 {
            TerminationReason::Stagnation
        } else if rank == 12 {
            TerminationReason::TolXUp
        } else if rank == 13 {
            TerminationReason::InvalidFunctionValue
        } else {
            TerminationReason::PosDefCov
        }
    }

    /// The name of the reason, as text.
    pub fn to_string(&self) -> (s: String)
        ensures
            s@ == self.label(),
    {
        match self {
            TerminationReason::MaxFunctionEvals => "MaxFunctionEvals".to_owned(),
            TerminationReason::MaxGenerations => "MaxGenerations".to_owned(),
            TerminationReason::MaxTime => "MaxTime".to_owned(),
            TerminationReason::FunTarget => "FunTarget".to_owned(),
            TerminationReason::TolFun => "TolFun".to_owned(),
            TerminationReason::TolFunRel => "TolFunRel".to_owned(),
            TerminationReason::TolFunHist => "TolFunHist".to_owned(),
            TerminationReason::TolX => "TolX".to_owned(),
            TerminationReason::Stagnation => "Stagnation".to_owned(),
            TerminationReason::TolXUp => "TolXUp".to_owned(),
            TerminationReason::NoEffectAxis => "NoEffectAxis".to_owned(),
            TerminationReason::NoEffectCoord => "NoEffectCoord".to_owned(),
            TerminationReason::TolConditionCov => "TolConditionCov".to_owned(),
            TerminationReason::InvalidFunctionValue => "InvalidFunctionValue".to_owned(),
            TerminationReason::PosDefCov => "PosDefCov".to_owned(),
        }
    }
}

/// The numbers whose differences are the two ranges of function values.
#[derive(Clone, Copy, Debug)]
pub struct RangePicks {
    /// How many of the newest best function values were looked at.
    pub window: usize,
    /// The lowest of these best function values.
    pub history_lowest: Scalar,
    /// The highest of these best function values.
    pub history_highest: Scalar,
    /// The lowest function value of the current generation.
    pub current_lowest: Scalar,
    /// The highest function value of the current generation.
    pub current_highest: Scalar,
}

/// The two parts of each history whose medians are to be compared: the newest values,
/// at `0 .. length`, and the oldest, at `oldest_start .. oldest_start + length`.
#[derive(Clone, Copy, Debug)]
pub struct StagnationSlices {
    /// The length of either part.
    pub length: usize,
    /// Where the part with the oldest values starts.
    pub oldest_start: usize,
}

/// What has to be measured for a check.
#[derive(Clone, Copy, Debug)]
pub struct MeasurementPlan {
    /// The numbers to take the ranges of function values from, once the history of
    /// best function values is long enough.
    pub ranges: Option<RangePicks>,
    /// The principal axis along which to perturb the mean.
    pub axis: usize,
    /// The greatest square root of an eigenvalue of the covariance matrix.
    pub widest_axis: Scalar,
    /// The least square root of an eigenvalue of the covariance matrix.
    pub narrowest_axis: Scalar,
    /// The parts of the histories to take the medians of, once both histories are
    /// full.
    pub stagnation: Option<StagnationSlices>,
}

/// The medians of the parts of the histories that [`StagnationSlices`] names.
#[derive(Clone, Copy, Debug)]
pub struct StagnationMedians {
    /// The median of the newest best function values.
    pub best_recent: Scalar,
    /// The median of the oldest best function values.
    pub best_oldest: Scalar,
    /// The median of the newest median function values.
    pub median_recent: Scalar,
    /// The median of the oldest median function values.
    pub median_oldest: Scalar,
}

/// The results of the arithmetic that a [`MeasurementPlan`] asks for. Below, `sigma`
/// is the step size, `C` the covariance matrix, `B` its eigenvectors and `D` the
/// square roots of its eigenvalues.
#[derive(Clone, Debug)]
pub struct Measurements {
    /// `history_highest - history_lowest` of the [`RangePicks`].
    pub history_range: Option<Scalar>,
    /// `current_highest - current_lowest` of the [`RangePicks`].
    pub current_range: Option<Scalar>,
    /// `tol_fun_rel * |first_median_value - best_median_value|`, where both are known.
    pub relative_tolerance: Option<Scalar>,
    /// For each coordinate `i`, its standard deviation `sigma * sqrt(C[i][i])`.
    pub coordinate_deviations: Vec<Scalar>,
    /// For each coordinate `i`, `sigma` times the evolution path of the covariance.
    pub scaled_path: Vec<Scalar>,
    /// The condition number of `C`: the square of `widest_axis / narrowest_axis`.
    pub condition: Scalar,
    /// The mean plus `0.1 * sigma * D[k]` times column `k` of `B`, for the axis `k` of
    /// the plan.
    pub axis_shifted_mean: Vec<Scalar>,
    /// For each coordinate `i`, the mean's entry plus `0.2 * sigma * C[i][i]`.
    pub coordinate_shifted_mean: Vec<Scalar>,
    /// The medians of the [`StagnationSlices`].
    pub stagnation: Option<StagnationMedians>,
    /// `sigma * widest_axis` divided by the initial step size.
    pub axis_growth: Scalar,
}

/// Stores parameters of the termination check.
pub struct TerminationCheck<'a> {
    /// How often the objective function has been evaluated.
    pub current_function_evals: usize,
    /// The time since the run was created, in nanoseconds.
    pub elapsed: u128,
    /// The constants of the run.
    pub parameters: &'a Parameters,
    /// The search distribution, with the decomposition of its covariance matrix.
    pub state: &'a State,
    /// The best function value of each past generation, newest first.
    pub best_function_value_history: &'a VecDeque<Scalar>,
    /// The median function value of each past generation, newest first.
    pub median_function_value_history: &'a VecDeque<Scalar>,
    /// The length at which the histories are full.
    pub max_history_size: usize,
    /// The median objective function value of the first generation.
    pub first_median_value: Option<Scalar>,
    /// The best median objective function value of any generation.
    pub best_median_value: Option<Scalar>,
    /// The function values of the current generation of individuals.
    pub individuals: &'a Vec<Scalar>,
}

/// A list of the reason if it is met, of nothing if it is not.
pub open spec fn listed(met: bool, reason: TerminationReason) -> Seq<TerminationReason> {
    if met {
        seq![reason]
    } else {
        Seq::empty()
    }
}

/// The number of reasons that a check can find: those of the ranks below it.
pub const CHECKED_REASONS: usize = 13;

/// The reasons of a rank below the bound that `met` holds of, by rank.
pub open spec fn listing(met: spec_fn(TerminationReason) -> bool, bound: nat) -> Seq<
    TerminationReason,
>
    decreases bound,
{
    if bound == 0 {
        Seq::empty()
    } else {
        let reason = TerminationReason::at_rank((bound - 1) as nat);
        listing(met, (bound - 1) as nat) + listed(met(reason), reason)
    }
}

impl<'a> TerminationCheck<'a> {
    /// How many best function values the ranges of function values are taken over:
    /// `10 + ceil(30 * N / lambda)`.
    pub open spec fn history_window(&self) -> nat {
        self.parameters@.history_window()
    }

    /// Whether that many best function values are known.
    pub open spec fn window_reached(&self) -> bool {
        self.best_function_value_history@.len() >= self.history_window()
    }

    /// Whether both histories are full.
    pub open spec fn histories_full(&self) -> bool {
        &&& self.best_function_value_history@.len() >= self.max_history_size
        &&& self.median_function_value_history@.len() >= self.max_history_size
    }

    /// The length of the parts of a full history whose medians are compared: three
    /// tenths of the history, rounded down.
    pub open spec fn stagnation_slice_length(&self) -> nat {
        (3 * self.max_history_size / 10) as nat
    }

    /// The square roots of the eigenvalues of the covariance matrix, one for each
    /// principal axis; none while the matrix is not decomposed.
    pub open spec fn axis_scales(&self) -> Seq<Scalar> {
        match self.state@.cov.known() {
            Some(decomposition) => decomposition.sqrt_eigenvalues@,
            None => Seq::empty(),
        }
    }

    /// Whether the check holds what a plan is made from: the search distribution has
    /// the dimensions of the run, its covariance matrix is decomposed, and there are
    /// function values of the current generation if their range is called for.
    pub open spec fn well_formed(&self) -> bool {
        &&& self.state@.mean.len() == self.parameters@.dim
        &&& self.state@.cov.known() matches Some(decomposition) && decomposition.fits(
            self.parameters@.dim,
        )
        &&& self.window_reached() ==> self.individuals@.len() > 0
    }

    /// What has to be measured for this check. The axis to perturb is the generation
    /// modulo the number of dimensions, so that a run goes through the axes in turn.
    pub open spec fn planned(&self) -> MeasurementPlan {
        MeasurementPlan {
            ranges: if self.window_reached() {
                let window = self.best_function_value_history@.take(
                    self.history_window() as int,
                );
                Some(
                    RangePicks {
                        window: self.history_window() as usize,
                        history_lowest: lowest(window),
                        history_highest: highest(window),
                        current_lowest: lowest(self.individuals@),
                        current_highest: highest(self.individuals@),
                    },
                )
            } else {
                None
            },
            axis: (self.state@.generation % self.parameters@.dim) as usize,
            widest_axis: highest(self.axis_scales()),
            narrowest_axis: lowest(self.axis_scales()),
            stagnation: if self.histories_full() {
                Some(
                    StagnationSlices {
                        length: self.stagnation_slice_length() as usize,
                        oldest_start: (self.max_history_size
                            - self.stagnation_slice_length()) as usize,
                    },
                )
            } else {
                None
            },
        }
    }

    /// `MaxFunctionEvals`: there is a limit and the evaluations have reached it.
    pub open spec fn max_function_evals_met(&self) -> bool {
        self.parameters@.termination.max_function_evals matches Some(limit)
            && self.current_function_evals >= limit
    }

    /// `MaxGenerations`: there is a limit and the generations have reached it.
    pub open spec fn max_generations_met(&self) -> bool {
        self.parameters@.termination.max_generations matches Some(limit) && self.state@.generation
            >= limit
    }

    /// `MaxTime`: there is a limit and the running time has reached it.
    pub open spec fn max_time_met(&self) -> bool {
        self.parameters@.termination.max_time matches Some(limit) && self.elapsed >= limit
    }

    /// `FunTarget`: the function value of some individual is at or below the target.
    pub open spec fn fun_target_met(&self) -> bool {
        exists|i: int|
            0 <= i < self.individuals@.len() && (#[trigger] self.individuals@[i])@.le(
                self.parameters@.termination.fun_target@,
            )
    }

    /// `TolFun`: the history of best function values is long enough, and both ranges
    /// of function values are below `tol_fun`.
    pub open spec fn tol_fun_met(&self, m: &Measurements) -> bool {
        let tol_fun = self.parameters@.termination.tol_fun;
        &&& self.window_reached()
        &&& m.history_range matches Some(history_range)
        &&& m.current_range matches Some(current_range)
        &&& history_range@.lt(tol_fun@)
        &&& current_range@.lt(tol_fun@)
    }

    /// `TolFunRel`: the history of best function values is long enough, the first and
    /// the best median function value are known, and both ranges of function values
    /// are below `tol_fun_rel` times the distance of those two.
    pub open spec fn tol_fun_rel_met(&self, m: &Measurements) -> bool {
        &&& self.window_reached()
        &&& self.first_median_value is Some
        &&& self.best_median_value is Some
        &&& m.history_range matches Some(history_range)
        &&& m.current_range matches Some(current_range)
        &&& m.relative_tolerance matches Some(tolerance)
        &&& history_range@.lt(tolerance@)
        &&& current_range@.lt(tolerance@)
    }

    /// `TolX`: the standard deviation in every coordinate and every entry of the scaled
    /// evolution path are below `tol_x` in absolute value.
    pub open spec fn tol_x_met(&self, m: &Measurements) -> bool {
        let tol_x = self.parameters@.termination.tol_x;
        &&& forall|i: int|
            0 <= i < m.coordinate_deviations@.len() ==> (
            #[trigger] m.coordinate_deviations@[i])@.abs().lt(tol_x@)
        &&& forall|i: int|
            0 <= i < m.scaled_path@.len() ==> (#[trigger] m.scaled_path@[i])@.abs().lt(tol_x@)
    }

    /// `TolConditionCov`: the condition number of the covariance matrix is not a
    /// normal number or exceeds `tol_condition_cov`.
    pub open spec fn tol_condition_cov_met(&self, m: &Measurements) -> bool {
        !m.condition@.is_normal() || m.condition@.gt(
            self.parameters@.termination.tol_condition_cov@,
        )
    }

    /// `NoEffectAxis`: perturbing the mean along the axis of the plan leaves every
    /// entry of it equal to what it was.
    pub open spec fn no_effect_axis_met(&self, m: &Measurements) -> bool {
        &&& m.axis_shifted_mean@.len() == self.state@.mean.len()
        &&& forall|i: int|
            0 <= i < self.state@.mean.len() ==> (#[trigger] self.state@.mean[i])@.eq(
                m.axis_shifted_mean@[i]@,
            )
    }

    /// `NoEffectCoord`: perturbing the mean along some coordinate leaves that entry of
    /// it equal to what it was.
    pub open spec fn no_effect_coord_met(&self, m: &Measurements) -> bool {
        exists|i: int|
            0 <= i < self.state@.mean.len() && i < m.coordinate_shifted_mean@.len() && (
            #[trigger] self.state@.mean[i])@.eq(m.coordinate_shifted_mean@[i]@)
    }

    /// `TolFunHist`: the history of best function values is long enough, and the range
    /// of the best function values is below `tol_fun_hist`.
    pub open spec fn tol_fun_hist_met(&self, m: &Measurements) -> bool {
        &&& self.window_reached()
        &&& m.history_range matches Some(history_range)
        &&& history_range@.lt(self.parameters@.termination.tol_fun_hist@)
    }

    /// `Stagnation`: both histories are full, and in neither is the median of the
    /// newest values less than the median of the oldest.
    pub open spec fn stagnation_met(&self, m: &Measurements) -> bool {
        &&& self.histories_full()
        &&& m.stagnation matches Some(medians)
        &&& !medians.best_recent@.lt(medians.best_oldest@)
        &&& !medians.median_recent@.lt(medians.median_oldest@)
    }

    /// `TolXUp`: the greatest standard deviation along a principal axis, divided by
    /// the initial step size, exceeds `tol_x_up`.
    pub open spec fn tol_x_up_met(&self, m: &Measurements) -> bool {
        m.axis_growth@.gt(self.parameters@.termination.tol_x_up@)
    }

    /// Whether the criterion of the reason is met. A check never finds the two reasons
    /// that come from evaluating the objective function and from decomposing the
    /// covariance matrix.
    pub open spec fn criterion_met(&self, m: &Measurements, reason: TerminationReason) -> bool {
        match reason {
            TerminationReason::MaxFunctionEvals => self.max_function_evals_met(),
            TerminationReason::MaxGenerations => self.max_generations_met(),
            TerminationReason::MaxTime => self.max_time_met(),
            TerminationReason::FunTarget => self.fun_target_met(),
            TerminationReason::TolFun => self.tol_fun_met(m),
            TerminationReason::TolFunRel => self.tol_fun_rel_met(m),
            TerminationReason::TolX => self.tol_x_met(m),
            TerminationReason::TolConditionCov => self.tol_condition_cov_met(m),
            TerminationReason::NoEffectAxis => self.no_effect_axis_met(m),
            TerminationReason::NoEffectCoord => self.no_effect_coord_met(m),
            TerminationReason::TolFunHist => self.tol_fun_hist_met(m),
            TerminationReason::Stagnation => self.stagnation_met(m),
            TerminationReason::TolXUp => self.tol_x_up_met(m),
            TerminationReason::InvalidFunctionValue => false,
            TerminationReason::PosDefCov => false,
        }
    }

    /// The reasons to stop: each reason whose criterion is met, in the order of
    /// [`TerminationReason::rank`].
    pub open spec fn reasons(&self, m: &Measurements) -> Seq<TerminationReason> {
        listing(|reason: TerminationReason| self.criterion_met(m, reason), CHECKED_REASONS as nat)
    }
}

impl<'a> TerminationCheck<'a> {
    fn is_window_reached(&self) -> (r: bool)
        ensures
            r == self.window_reached(),
    {
        self.best_function_value_history.len() as u128 >= self.parameters.history_window()
    }

    fn are_histories_full(&self) -> (r: bool)
        ensures
            r == self.histories_full(),
    {
        self.best_function_value_history.len() >= self.max_history_size
            && self.median_function_value_history.len() >= self.max_history_size
    }

    /// Whether a plan can be made from what the check holds.
    pub fn is_well_formed(&self) -> (r: bool)
        ensures
            r == self.well_formed(),
    {
        let dim: usize = self.parameters.dim();
        let decomposed: bool = match self.state.cov().decomposition() {
            Some(decomposition) => decomposition.is_fit(dim),
            None => false,
        };
        self.state.mean().len() == dim && decomposed && (!self.is_window_reached()
            || self.individuals.len() > 0)
    }

    /// Says what has to be measured for this check.
    pub fn plan(&self) -> (p: MeasurementPlan)
        requires
            self.well_formed(),
        ensures
            p == self.planned(),
    {
        let dim: usize = self.parameters.dim();
        let length: u128 = self.parameters.history_window();
        let ranges: Option<RangePicks> = if self.best_function_value_history.len() as u128
            >= length {
            let window: usize = length as usize;
            let history = leading_extremes(self.best_function_value_history, window);
            let current = extremes(self.individuals);
            Some(
                RangePicks {
                    window,
                    history_lowest: history.0,
                    history_highest: history.1,
                    current_lowest: current.0,
                    current_highest: current.1,
                },
            )
        } else {
            None
        };
        let axes = match self.state.cov().decomposition() {
            Some(decomposition) => extremes(&decomposition.sqrt_eigenvalues),
            None => (Scalar::zero(), Scalar::zero()),
        };
        let stagnation: Option<StagnationSlices> = if self.are_histories_full() {
            let length: usize = (3 * (self.max_history_size as u128) / 10) as usize;
            Some(StagnationSlices { length, oldest_start: self.max_history_size - length })
        } else {
            None
        };
        MeasurementPlan {
            ranges,
            axis: self.state.generation() % dim,
            widest_axis: axes.1,
            narrowest_axis: axes.0,
            stagnation,
        }
    }

    /// Checks `MaxFunctionEvals`.
    pub fn is_max_function_evals_met(&self) -> (r: bool)
        ensures
            r == self.max_function_evals_met(),
    {
        match self.parameters.max_function_evals() {
            Some(limit) => self.current_function_evals >= limit,
            None => false,
        }
    }

    /// Checks `MaxGenerations`.
    pub fn is_max_generations_met(&self) -> (r: bool)
        ensures
            r == self.max_generations_met(),
    {
        match self.parameters.max_generations() {
            Some(limit) => self.state.generation() >= limit,
            None => false,
        }
    }

    /// Checks `MaxTime`.
    pub fn is_max_time_met(&self) -> (r: bool)
        ensures
            r == self.max_time_met(),
    {
        match self.parameters.max_time() {
            Some(limit) => self.elapsed >= limit,
            None => false,
        }
    }

    /// Checks `FunTarget`.
    pub fn is_fun_target_met(&self) -> (r: bool)
        ensures
            r == self.fun_target_met(),
    {
        let target: Scalar = self.parameters.fun_target();
        let mut i: usize = 0;
        while i < self.individuals.len()
            invariant
                i <= self.individuals@.len(),
                target == self.parameters@.termination.fun_target,
                forall|j: int| 0 <= j < i ==> !(#[trigger] self.individuals@[j])@.le(target@),
            decreases self.individuals.len() - i,
        {
            if self.individuals[i].le(target) {
                return true;
            }
            i += 1;
        }
        false
    }

    /// Checks `TolFun`.
    pub fn is_tol_fun_met(&self, m: &Measurements) -> (r: bool)
        requires
            m.answers(self),
        ensures
            r == self.tol_fun_met(m),
    {
        if !self.is_window_reached() {
            return false;
        }
        let tol_fun: Scalar = self.parameters.tol_fun();
        m.history_range.unwrap().lt(tol_fun) && m.current_range.unwrap().lt(tol_fun)
    }

    /// Checks `TolFunRel`.
    pub fn is_tol_fun_rel_met(&self, m: &Measurements) -> (r: bool)
        requires
            m.answers(self),
        ensures
            r == self.tol_fun_rel_met(m),
    {
        if !self.is_window_reached() || self.first_median_value.is_none()
            || self.best_median_value.is_none() {
            return false;
        }
        let tolerance: Scalar = m.relative_tolerance.unwrap();
        m.history_range.unwrap().lt(tolerance) && m.current_range.unwrap().lt(tolerance)
    }

    /// Checks `TolX`.
    pub fn is_tol_x_met(&self, m: &Measurements) -> (r: bool)
        ensures
            r == self.tol_x_met(m),
    {
        let tol_x: Scalar = self.parameters.tol_x();
        all_within(&m.coordinate_deviations, tol_x) && all_within(&m.scaled_path, tol_x)
    }

    /// Checks `TolConditionCov`.
    pub fn is_tol_condition_cov_met(&self, m: &Measurements) -> (r: bool)
        ensures
            r == self.tol_condition_cov_met(m),
    {
        !m.condition.is_normal() || m.condition.gt(self.parameters.tol_condition_cov())
    }

    /// Checks `NoEffectAxis`.
    pub fn is_no_effect_axis_met(&self, m: &Measurements) -> (r: bool)
        ensures
            r == self.no_effect_axis_met(m),
    {
        let mean: &Vec<Scalar> = self.state.mean();
        if m.axis_shifted_mean.len() != mean.len() {
            return false;
        }
        let mut i: usize = 0;
        while i < mean.len()
            invariant
                mean@ == self.state@.mean,
                i <= mean@.len(),
                m.axis_shifted_mean@.len() == mean@.len(),
                forall|j: int| 0 <= j < i ==> (#[trigger] mean@[j])@.eq(m.axis_shifted_mean@[j]@),
            decreases mean.len() - i,
        {
            if !mean[i].eq(m.axis_shifted_mean[i]) {
                return false;
            }
            i += 1;
        }
        true
    }

    /// Checks `NoEffectCoord`.
    pub fn is_no_effect_coord_met(&self, m: &Measurements) -> (r: bool)
        ensures
            r == self.no_effect_coord_met(m),
    {
        let mean: &Vec<Scalar> = self.state.mean();
        let mut i: usize = 0;
        while i < mean.len() && i < m.coordinate_shifted_mean.len()
            invariant
                mean@ == self.state@.mean,
                forall|j: int|
                    0 <= j < i ==> !(#[trigger] mean@[j])@.eq(m.coordinate_shifted_mean@[j]@),
            decreases mean.len() - i,
        {
            if mean[i].eq(m.coordinate_shifted_mean[i]) {
                return true;
            }
            i += 1;
        }
        false
    }

    /// Checks `TolFunHist`.
    pub fn is_tol_fun_hist_met(&self, m: &Measurements) -> (r: bool)
        requires
            m.answers(self),
        ensures
            r == self.tol_fun_hist_met(m),
    {
        self.is_window_reached() && m.history_range.unwrap().lt(self.parameters.tol_fun_hist())
    }

    /// Checks `Stagnation`.
    pub fn is_stagnation_met(&self, m: &Measurements) -> (r: bool)
        requires
            m.answers(self),
        ensures
            r == self.stagnation_met(m),
    {
        if !self.are_histories_full() {
            return false;
        }
        let medians: StagnationMedians = m.stagnation.unwrap();
        !medians.best_recent.lt(medians.best_oldest) && !medians.median_recent.lt(
            medians.median_oldest,
        )
    }

    /// Checks `TolXUp`.
    pub fn is_tol_x_up_met(&self, m: &Measurements) -> (r: bool)
        ensures
            r == self.tol_x_up_met(m),
    {
        m.axis_growth.gt(self.parameters.tol_x_up())
    }

    /// Checks whether any termination criteria are met, and returns the reasons of
    /// those that are.
    pub fn check_termination_criteria(self, m: &Measurements) -> (result: Vec<TerminationReason>)
        requires
            m.answers(&self),
        ensures
            result@ == self.reasons(m),
    {
        let mut result: Vec<TerminationReason> = Vec::new();
        list(&mut result, self.is_max_function_evals_met(), TerminationReason::MaxFunctionEvals);
        list(&mut result, self.is_max_generations_met(), TerminationReason::MaxGenerations);
        list(&mut result, self.is_max_time_met(), TerminationReason::MaxTime);
        list(&mut result, self.is_fun_target_met(), TerminationReason::FunTarget);
        list(&mut result, self.is_tol_fun_met(m), TerminationReason::TolFun);
        list(&mut result, self.is_tol_fun_rel_met(m), TerminationReason::TolFunRel);
        list(&mut result, self.is_tol_x_met(m), TerminationReason::TolX);
        list(&mut result, self.is_tol_condition_cov_met(m), TerminationReason::TolConditionCov);
        list(&mut result, self.is_no_effect_axis_met(m), TerminationReason::NoEffectAxis);
        list(&mut result, self.is_no_effect_coord_met(m), TerminationReason::NoEffectCoord);
        list(&mut result, self.is_tol_fun_hist_met(m), TerminationReason::TolFunHist);
        list(&mut result, self.is_stagnation_met(m), TerminationReason::Stagnation);
        list(&mut result, self.is_tol_x_up_met(m), TerminationReason::TolXUp);
        proof {
            lemma_reasons_unfold(&self, m);
        }
        result
    }
}

/// Adds the reason to the list if it is met.
fn list(reasons: &mut Vec<TerminationReason>, met: bool, reason: TerminationReason)
    ensures
        final(reasons)@ == old(reasons)@ + listed(met, reason),
{
    if met {
        reasons.push(reason);
    }
    assert(reasons@ =~= old(reasons)@ + listed(met, reason));
}

/// Whether every one of the values is below the tolerance in absolute value.
fn all_within(values: &Vec<Scalar>, tolerance: Scalar) -> (r: bool)
    ensures
        r <==> forall|i: int|
            0 <= i < values@.len() ==> (#[trigger] values@[i])@.abs().lt(tolerance@),
{
    let mut i: usize = 0;
    while i < values.len()
        invariant
            i <= values@.len(),
            forall|j: int| 0 <= j < i ==> (#[trigger] values@[j])@.abs().lt(tolerance@),
        decreases values.len() - i,
    {
        if !values[i].abs().lt(tolerance) {
            return false;
        }
        i += 1;
    }
    true
}

impl Measurements {
    /// Whether the measurements hold what the plan of the check asks for: the ranges
    /// where it names the numbers to take them from, the relative tolerance where the
    /// ranges are due and both median values are known, the medians where it names
    /// the parts of the histories, and one entry for each entry of the mean in what is
    /// measured by coordinate.
    pub open spec fn answers(&self, check: &TerminationCheck) -> bool {
        &&& check.window_reached() ==> self.history_range is Some && self.current_range is Some
        &&& check.window_reached() && check.first_median_value is Some
            && check.best_median_value is Some ==> self.relative_tolerance is Some
        &&& check.histories_full() ==> self.stagnation is Some
        &&& self.coordinate_deviations@.len() == check.state@.mean.len()
        &&& self.scaled_path@.len() == check.state@.mean.len()
        &&& self.axis_shifted_mean@.len() == check.state@.mean.len()
        &&& self.coordinate_shifted_mean@.len() == check.state@.mean.len()
    }

    /// Whether the measurements hold what the plan of the check asks for.
    pub fn is_answer_to(&self, check: &TerminationCheck) -> (r: bool)
        ensures
            r == self.answers(check),
    {
        let window_reached: bool = check.is_window_reached();
        let n: usize = check.state.mean().len();
        (!window_reached || (self.history_range.is_some() && self.current_range.is_some()))
            && (!window_reached || check.first_median_value.is_none()
            || check.best_median_value.is_none() || self.relative_tolerance.is_some())
            && (!check.are_histories_full() || self.stagnation.is_some())
            && self.coordinate_deviations.len() == n && self.scaled_path.len() == n
            && self.axis_shifted_mean.len() == n && self.coordinate_shifted_mean.len() == n
    }
}

/// Whether every reason of the list has a rank below the bound.
pub open spec fn ranked_below(s: Seq<TerminationReason>, bound: nat) -> bool {
    forall|i: int| 0 <= i < s.len() ==> (#[trigger] s[i]).rank() < bound
}

/// Whether the reasons of the list come by rank, which leaves no room for one to
/// come twice.
pub open spec fn ascending(s: Seq<TerminationReason>) -> bool {
    forall|i: int, j: int|
        0 <= i < j < s.len() ==> (#[trigger] s[i]).rank() < (#[trigger] s[j]).rank()
}

/// Every reason has a rank of its own.
pub proof fn lemma_rank_names_reason(reason: TerminationReason)
    ensures
        reason.rank() < 15,
        TerminationReason::at_rank(reason.rank()) == reason,
{
}

/// A listing holds the reasons below its bound that `met` holds of, by rank.
pub proof fn lemma_listing(met: spec_fn(TerminationReason) -> bool, bound: nat)
    requires
        bound <= 15,
    ensures
        ranked_below(listing(met, bound), bound),
        ascending(listing(met, bound)),
        listing(met, bound).len() <= bound,
        forall|x: TerminationReason|
            (#[trigger] listing(met, bound).contains(x)) <==> (x.rank() < bound && met(x)),
    decreases bound,
{
    if bound > 0 {
        let reason = TerminationReason::at_rank((bound - 1) as nat);
        let prefix = listing(met, (bound - 1) as nat);
        let next = prefix + listed(met(reason), reason);
        lemma_listing(met, (bound - 1) as nat);
        assert(reason.rank() == bound - 1);
        assert forall|x: TerminationReason| (#[trigger] next.contains(x)) <==> (x.rank() < bound
            && met(x)) by {
            lemma_rank_names_reason(x);
            if next.contains(x) {
                let i = choose|i: int| 0 <= i < next.len() && next[i] == x;
                if i < prefix.len() {
                    assert(prefix[i] == x);
                    assert(prefix.contains(x));
                }
            }
            if x.rank() < bound && met(x) {
                if x.rank() < bound - 1 {
                    assert(prefix.contains(x));
                    let i = choose|i: int| 0 <= i < prefix.len() && prefix[i] == x;
                    assert(next[i] == x);
                } else {
                    assert(x == reason);
                    assert(next[prefix.len() as int] == x);
                }
            }
        }
    }
}

/// A check reports a reason if and only if the criterion of that reason is met,
/// whatever holds of the other criteria.
pub proof fn lemma_reasons_are_the_criteria_met(
    check: &TerminationCheck,
    m: &Measurements,
    reason: TerminationReason,
)
    ensures
        check.reasons(m).contains(reason) <==> check.criterion_met(m, reason),
{
    lemma_listing(|reason: TerminationReason| check.criterion_met(m, reason), 13);
    lemma_rank_names_reason(reason);
}

/// A check reports its reasons by rank: the order does not depend on what is checked,
/// and no reason comes twice.
pub proof fn lemma_reasons_ascend(check: &TerminationCheck, m: &Measurements)
    ensures
        ascending(check.reasons(m)),
        check.reasons(m).no_duplicates(),
        check.reasons(m).len() <= CHECKED_REASONS,
{
    lemma_listing(|reason: TerminationReason| check.criterion_met(m, reason), 13);
    let reasons = check.reasons(m);
    assert forall|i: int, j: int| 0 <= i < reasons.len() && 0 <= j < reasons.len() && i != j
        implies reasons[i] != reasons[j] by {
        if i < j {
            assert(reasons[i].rank() < reasons[j].rank());
        } else {
            assert(reasons[j].rank() < reasons[i].rank());
        }
    }
}

/// The reasons of a check, one criterion after the other.
proof fn lemma_reasons_unfold(check: &TerminationCheck, m: &Measurements)
    ensures
        check.reasons(m) == Seq::<TerminationReason>::empty() + listed(
            check.max_function_evals_met(),
            TerminationReason::MaxFunctionEvals,
        ) + listed(check.max_generations_met(), TerminationReason::MaxGenerations) + listed(
            check.max_time_met(),
            TerminationReason::MaxTime,
        ) + listed(check.fun_target_met(), TerminationReason::FunTarget) + listed(
            check.tol_fun_met(m),
            TerminationReason::TolFun,
        ) + listed(check.tol_fun_rel_met(m), TerminationReason::TolFunRel) + listed(
            check.tol_x_met(m),
            TerminationReason::TolX,
        ) + listed(check.tol_condition_cov_met(m), TerminationReason::TolConditionCov) + listed(
            check.no_effect_axis_met(m),
            TerminationReason::NoEffectAxis,
        ) + listed(check.no_effect_coord_met(m), TerminationReason::NoEffectCoord) + listed(
            check.tol_fun_hist_met(m),
            TerminationReason::TolFunHist,
        ) + listed(check.stagnation_met(m), TerminationReason::Stagnation) + listed(
            check.tol_x_up_met(m),
            TerminationReason::TolXUp,
        ),
{
    reveal_with_fuel(listing, 14);
}

} // verus!
