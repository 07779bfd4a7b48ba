//! Constants of a run: fixed when the run is set up and only read afterwards.

use crate::options::{learning_rate_accepted, step_size_accepted, ValidatedOptions, Weights};
use crate::scalar::Scalar;
use vstd::prelude::*;

verus! {

/// Limits and tolerances of the termination criteria.
#[derive(Clone, Copy, Debug)]
pub struct TerminationParameters {
    /// The number of objective function evaluations at which to stop.
    pub max_function_evals: Option<usize>,
    /// The number of generations at which to stop.
    pub max_generations: Option<usize>,
    /// The running time at which to stop, in nanoseconds.
    pub max_time: Option<u128>,
    /// The objective function value at which to stop.
    pub fun_target: Scalar,
    /// The range of function values below which to stop.
    pub tol_fun: Scalar,
    /// Like `tol_fun`, but taken times the overall improvement of the median value.
    pub tol_fun_rel: Scalar,
    /// The range of past best function values below which to stop.
    pub tol_fun_hist: Scalar,
    /// The standard deviation in every coordinate below which to stop.
    pub tol_x: Scalar,
    /// The growth of the largest standard deviation above which to stop.
    pub tol_x_up: Scalar,
    /// The condition number of the covariance matrix above which to stop.
    pub tol_condition_cov: Scalar,
}

/// Bit pattern of the binary64 number nearest to `1e-12`, the objective function value
/// at which to stop and the range of past best function values below which to stop
/// unless others are chosen.
pub const DEFAULT_TOLERANCE_BITS: u64 = 0x3d71_9799_812d_ea11;

/// Bit pattern of `1e8`, the growth of the largest standard deviation above which to
/// stop unless another is chosen.
pub const DEFAULT_TOL_X_UP_BITS: u64 = 0x4197_d784_0000_0000;

/// Bit pattern of `1e14`, the condition number of the covariance matrix above which to
/// stop unless another is chosen.
pub const DEFAULT_TOL_CONDITION_COV_BITS: u64 = 0x42d6_bcc4_1e90_0000;

impl TerminationParameters {
    /// The limits and tolerances of a run for which only `tol_fun` and `tol_x` are
    /// chosen: no limit on evaluations, generations or time, `1e-12` for the target
    /// and for `tol_fun_hist`, zero for `tol_fun_rel`, which leaves `TolFunRel` out,
    /// `1e8` for `tol_x_up` and `1e14` for `tol_condition_cov`.
    pub fn with_defaults(tol_fun: Scalar, tol_x: Scalar) -> (r: TerminationParameters)
        ensures
            r.max_function_evals is None,
            r.max_generations is None,
            r.max_time is None,
            r.fun_target.bits == DEFAULT_TOLERANCE_BITS,
            r.tol_fun == tol_fun,
            r.tol_fun_rel.bits == 0,
            r.tol_fun_hist.bits == DEFAULT_TOLERANCE_BITS,
            r.tol_x == tol_x,
            r.tol_x_up.bits == DEFAULT_TOL_X_UP_BITS,
            r.tol_condition_cov.bits == DEFAULT_TOL_CONDITION_COV_BITS,
    {
        TerminationParameters {
            max_function_evals: None,
            max_generations: None,
            max_time: None,
            fun_target: Scalar::from_bits(DEFAULT_TOLERANCE_BITS),
            tol_fun,
            tol_fun_rel: Scalar::zero(),
            tol_fun_hist: Scalar::from_bits(DEFAULT_TOLERANCE_BITS),
            tol_x,
            tol_x_up: Scalar::from_bits(DEFAULT_TOL_X_UP_BITS),
            tol_condition_cov: Scalar::from_bits(DEFAULT_TOL_CONDITION_COV_BITS),
        }
    }
}

/// What the constants of a run are, as plain data.
pub struct ParametersView {
    /// Number of dimensions to search (`N`).
    pub dim: nat,
    /// Number of points of each generation (`lambda`).
    pub lambda: nat,
    /// Number of points of a generation that are selected (`mu`).
    pub mu: nat,
    /// The distribution of the recombination weights.
    pub weights_setting: Weights,
    /// The learning rate of the mean.
    pub cm: Scalar,
    /// The step size at the start of the run.
    pub initial_sigma: Scalar,
    /// Limits and tolerances of the termination criteria.
    pub termination: TerminationParameters,
}

impl ParametersView {
    /// What holds of the constants of every run: there is a dimension to search, the
    /// population has at least 4 points of which half are selected, and the initial
    /// step size and the learning rate of the mean are within their ranges.
    pub open spec fn sound(self) -> bool {
        &&& self.dim >= 1
        &&& self.lambda >= 4
        &&& self.mu == self.lambda / 2
        &&& step_size_accepted(self.initial_sigma)
        &&& learning_rate_accepted(self.cm)
    }

    /// How many of the newest best function values the termination criteria take
    /// their range of: `10 + ceil(30 * N / lambda)`.
    pub open spec fn history_window(self) -> nat {
        (10 + (30 * self.dim + self.lambda - 1) / (self.lambda as int)) as nat
    }
}

/// The constants of a run, derived once from checked options.
pub struct Parameters {
    dim: usize,
    lambda: usize,
    mu: usize,
    weights_setting: Weights,
    cm: Scalar,
    initial_sigma: Scalar,
    termination: TerminationParameters,
}

impl View for Parameters {
    type V = ParametersView;

    closed spec fn view(&self) -> ParametersView {
        ParametersView {
            dim: self.dim as nat,
            lambda: self.lambda as nat,
            mu: self.mu as nat,
            weights_setting: self.weights_setting,
            cm: self.cm,
            initial_sigma: self.initial_sigma,
            termination: self.termination,
        }
    }
}

impl Parameters {
    #[verifier::type_invariant]
    spec fn sound(&self) -> bool {
        self@.sound()
    }

    /// Derives the constants of a run from checked options and the limits and
    /// tolerances of the termination criteria.
    pub fn new(options: &ValidatedOptions, termination_parameters: TerminationParameters) -> (r:
        Parameters)
        ensures
            r@.sound(),
            r@.dim == options@.dimensions,
            r@.lambda == options@.population_size,
            r@.mu == options@.population_size / 2,
            r@.weights_setting == options@.weights,
            r@.cm == options@.cm,
            r@.initial_sigma == options@.initial_step_size,
            r@.termination == termination_parameters,
    {
        let options = options.options();
        Parameters {
            dim: options.dimensions,
            lambda: options.population_size,
            mu: options.population_size / 2,
            weights_setting: options.weights,
            cm: options.cm,
            initial_sigma: options.initial_step_size,
            termination: termination_parameters,
        }
    }

    /// Number of dimensions to search (`N`), at least 1.
    pub fn dim(&self) -> (r: usize)
        ensures
            r == self@.dim,
            r >= 1,
    {
        proof {
            use_type_invariant(self);
        }
        self.dim
    }

    /// Number of points of each generation (`lambda`), at least 4.
    pub fn lambda(&self) -> (r: usize)
        ensures
            r == self@.lambda,
            r >= 4,
    {
        proof {
            use_type_invariant(self);
        }
        self.lambda
    }

    /// Number of points of a generation that are selected (`mu`): half the population,
    /// rounded down, so at least 2 and never more than the population.
    pub fn mu(&self) -> (r: usize)
        ensures
            r == self@.mu,
            r == self@.lambda / 2,
            2 <= r <= self@.lambda,
    {
        proof {
            use_type_invariant(self);
        }
        self.mu
    }

    /// How many of the newest best function values the termination criteria take
    /// their range of: `10 + ceil(30 * N / lambda)`, at least 10.
    pub fn history_window(&self) -> (w: u128)
        ensures
            w == self@.history_window(),
            w >= 10,
    {
        let dim: u128 = self.dim() as u128;
        let lambda: u128 = self.lambda() as u128;
        10 + (30 * dim + lambda - 1) / lambda
    }

    /// The distribution of the recombination weights.
    pub fn weights_setting(&self) -> (r: Weights)
        ensures
            r == self@.weights_setting,
    {
        self.weights_setting
    }

    /// The learning rate of the mean, above zero and at most one.
    pub fn cm(&self) -> (r: Scalar)
        ensures
            r == self@.cm,
            learning_rate_accepted(r),
    {
        proof {
            use_type_invariant(self);
        }
        self.cm
    }

    /// The step size at the start of the run, above zero.
    pub fn initial_sigma(&self) -> (r: Scalar)
        ensures
            r == self@.initial_sigma,
            step_size_accepted(r),
    {
        proof {
            use_type_invariant(self);
        }
        self.initial_sigma
    }

    /// The number of objective function evaluations at which to stop.
    pub fn max_function_evals(&self) -> (r: Option<usize>)
        ensures
            r == self@.termination.max_function_evals,
    {
        self.termination.max_function_evals
    }

    /// The number of generations at which to stop.
    pub fn max_generations(&self) -> (r: Option<usize>)
        ensures
            r == self@.termination.max_generations,
    {
        self.termination.max_generations
    }

    /// The running time at which to stop, in nanoseconds.
    pub fn max_time(&self) -> (r: Option<u128>)
        ensures
            r == self@.termination.max_time,
    {
        self.termination.max_time
    }

    /// The objective function value at which to stop.
    pub fn fun_target(&self) -> (r: Scalar)
        ensures
            r == self@.termination.fun_target,
    {
        self.termination.fun_target
    }

    /// The range of function values below which to stop.
    pub fn tol_fun(&self) -> (r: Scalar)
        ensures
            r == self@.termination.tol_fun,
    {
        self.termination.tol_fun
    }

    /// The factor of the overall improvement of the median value that `TolFunRel`
    /// holds the ranges of function values against.
    pub fn tol_fun_rel(&self) -> (r: Scalar)
        ensures
            r == self@.termination.tol_fun_rel,
    {
        self.termination.tol_fun_rel
    }

    /// The range of past best function values below which to stop.
    pub fn tol_fun_hist(&self) -> (r: Scalar)
        ensures
            r == self@.termination.tol_fun_hist,
    {
        self.termination.tol_fun_hist
    }

    /// The standard deviation in every coordinate below which to stop.
    pub fn tol_x(&self) -> (r: Scalar)
        ensures
            r == self@.termination.tol_x,
    {
        self.termination.tol_x
    }

    /// The growth of the largest standard deviation above which to stop.
    pub fn tol_x_up(&self) -> (r: Scalar)
        ensures
            r == self@.termination.tol_x_up,
    {
        self.termination.tol_x_up
    }

    /// The condition number of the covariance matrix above which to stop.
    pub fn tol_condition_cov(&self) -> (r: Scalar)
        ensures
            r == self@.termination.tol_condition_cov,
    {
        self.termination.tol_condition_cov
    }
}

} // verus!
