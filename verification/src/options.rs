//! Options of a run, and the checks they have to pass before a run is started.

use crate::scalar::{lemma_power_of_two, Scalar, Value};
use vstd::arithmetic::power2::*;
use vstd::prelude::*;

verus! {

/// Bit pattern of `0.5`, the initial step size unless another is chosen.
pub const ONE_HALF_BITS: u64 = 0x3fe0_0000_0000_0000;

/// Bit pattern of `1.0`, the learning rate of the mean unless another is chosen, and
/// the greatest one accepted.
pub const ONE_BITS: u64 = 0x3ff0_0000_0000_0000;

/// Bit pattern of the binary64 number nearest to `1e-12`, the `tol_fun` tolerance
/// unless another is chosen.
pub const DEFAULT_TOL_FUN_BITS: u64 = 0x3d71_9799_812d_ea11;

/// The number of entries of [`LOG_STEPS`].
pub const LOG_STEP_COUNT: usize = 133;

/// `LOG_STEPS[k]` is the least whole number `n` with `3 * ln(n) >= k + 1`, which is
/// `e^((k + 1) / 3)` rounded up.  The table ends where the numbers pass `2^64`.
pub const LOG_STEPS: [u64; 133] = [
    2, 2, 3, 4, 6, 8, 11, 15, 21, 29, 40, 55, 77, 107, 149, 208, 290, 404, 564,
    786, 1097, 1531, 2136, 2981, 4161, 5807, 8104, 11309, 15783, 22027, 30741,
    42902, 59875, 83562, 116619, 162755, 227143, 317004, 442414, 617438, 861704,
    1202605, 1678370, 2342354, 3269018, 4562282, 6367177, 8886111, 12401567,
    17307780, 24154953, 33710953, 47047424, 65659970, 91635869, 127888158, 178482301,
    249092117, 347636054, 485165196, 677102575, 944972767, 1318815735, 1840555626,
    2568702300, 3584912847, 5003148911, 6982456785, 9744803447, 13599968770,
    18980285396, 26489122130, 36968547975, 51593764890, 72004899338, 100490932183,
    140246393563, 195729609429, 273162674877, 381229223127, 532048240602, 742533135330,
    1036288469704, 1446257064292, 2018414328794, 2816924116237, 3931334297145,
    5486618992262, 7657193637314, 10686474581525, 14914176706343, 20814410321301,
    29048849665248, 40540935527278, 56579433346483, 78962960182681, 110201688352528,
    153798845530253, 214643579785917, 299559246914182, 418068607042865, 583461742527455,
    814286457433697, 1136428297573803, 1586013452313431, 2213460080402309, 3089132390641516,
    4311231547115196, 6016808314577092, 8397132443185082, 11719142372802612,
    16355380706836202, 22825772531473913, 31855931757113757, 44458534172922503,
    62046882692845158, 86593400423993747, 120850825562180727, 168660913736491023,
    235385266837019986, 328506603079949749, 458467896981202116, 639843493530054950,
    892973529681035623, 1246244953295835273, 1739274941520501048, 2427353719026893014,
    3387645010352860537, 4727839468229346562, 6598231505673286283, 9208573872912134966,
    12851600114359308276, 17935852801837659741,
];

/// How many of the first `upto` entries of [`LOG_STEPS`] do not exceed `n`.
pub open spec fn log_steps_reached(n: nat, upto: nat) -> nat
    decreases upto,
{
    if upto == 0 {
        0
    } else {
        log_steps_reached(n, (upto - 1) as nat) + if LOG_STEPS[upto - 1] <= n {
            1nat
        } else {
            0nat
        }
    }
}

/// The population size unless another is chosen: `4 + floor(3 * ln(dimensions))`, and
/// `4` for no dimensions at all.  The floor is the number of whole steps `k >= 1` with
/// `k <= 3 * ln(dimensions)`, and [`LOG_STEPS`] holds where each of them is reached.
pub open spec fn default_population_size(dimensions: nat) -> nat {
    4 + log_steps_reached(dimensions, LOG_STEP_COUNT as nat)
}

/// Whether a number can be the initial step size: it is greater than zero.
pub open spec fn step_size_accepted(step_size: Scalar) -> bool {
    step_size@.gt(Value::Finite(0))
}

/// Whether a number can be the learning rate of the mean: it is greater than zero and
/// not greater than one.
pub open spec fn learning_rate_accepted(cm: Scalar) -> bool {
    cm@.gt(Value::Finite(0)) && cm@.le(Scalar { bits: ONE_BITS }@)
}

/// The distribution of weights for the population. The default value is `Negative`.
#[derive(Clone, Copy, Debug, PartialEq, Eq, Structural)]
pub enum Weights {
    /// Weights are higher for higher-ranked selected individuals and are zero for the
    /// rest of the population.
    Positive,
    /// Similar to `Positive`, but non-selected individuals have negative weights. With
    /// this setting, the algorithm is known as active CMA-ES or aCMA-ES.
    Negative,
    /// Weights for selected individuals are equal and are zero for the rest of the
    /// population. This setting will likely perform much worse than the others.
    Uniform,
}

impl Default for Weights {
    fn default() -> (r: Self)
        ensures
            r == Weights::Negative,
    {
        Weights::Negative
    }
}

/// Represents invalid options for CMA-ES.
#[derive(Clone, Debug, PartialEq, Eq, Structural)]
pub enum InvalidOptionsError {
    /// The number of dimensions is set to zero.
    Dimensions,
    /// The dimension of the initial mean does not match the chosen dimension.
    MeanDimensionMismatch,
    /// The population size is too small (must be at least 4).
    PopulationSize,
    /// The initial step size is not greater than zero.
    InitialStepSize,
    /// The learning rate is outside the valid range (above `0.0`, up to `1.0`).
    Cm,
}

/// Options for the data plot of a run.
#[derive(Clone, Copy, Debug)]
pub struct PlotOptions {
    /// The least number of function evaluations between two recorded data points.
    pub min_gap_evals: usize,
    /// Whether the plot is scaled to leave out the first, most spread out points.
    pub scale_plot: bool,
}

impl PlotOptions {
    /// Options with the given gap and scaling.
    pub fn new(min_gap_evals: usize, scale_plot: bool) -> (r: PlotOptions)
        ensures
            r.min_gap_evals == min_gap_evals,
            r.scale_plot == scale_plot,
    {
        PlotOptions { min_gap_evals, scale_plot }
    }
}

/// A builder for the settings of a run. Used to adjust parameters of the algorithm to
/// each particular problem.
#[derive(Clone)]
pub struct CMAESOptions {
    /// Number of dimensions to search (`N`).
    pub dimensions: usize,
    /// Initial mean of the search distribution. This should be set to a first guess at
    /// the solution. Default value is the origin.
    pub initial_mean: Vec<Scalar>,
    /// Initial step size of the search distribution (`sigma0`). This should be set to a
    /// first guess at how far the solution is from the initial mean. Default value is
    /// `0.5`.
    pub initial_step_size: Scalar,
    /// Number of points to generate each generation (`lambda`). Default value is
    /// `4 + floor(3 * ln(dimensions))`.
    pub population_size: usize,
    /// The distribution to use when assigning weights to individuals. Default value is
    /// `Weights::Negative`.
    pub weights: Weights,
    /// The learning rate for adapting the mean. Can be set lower than `1.0` for noisy
    /// functions. Default value is `1.0`.
    pub cm: Scalar,
    /// The value to use for the `TolFun` termination criterion. Default value is
    /// `1e-12`.
    pub tol_fun: Scalar,
    /// The value to use for the `TolX` termination criterion. `None` stands for the
    /// default value, `1e-12 * initial_step_size`.
    pub tol_x: Option<Scalar>,
    /// The seed for the RNG used in the algorithm. Can be set manually for
    /// deterministic runs. `None` stands for a random seed.
    pub seed: Option<u64>,
    /// Options for the data plot. Default value is `None`, meaning no plot will be
    /// generated.
    pub plot_options: Option<PlotOptions>,
    /// How many function evaluations to wait for in between each automatic printing of
    /// the state. Default value is `None`, meaning nothing is printed.
    pub print_gap_evals: Option<usize>,
}

impl CMAESOptions {
    /// What is wrong with the options, if anything. Of several defects the one named
    /// first is the one reported.
    pub open spec fn defect(&self) -> Option<InvalidOptionsError> {
        if self.dimensions == 0 {
            Some(InvalidOptionsError::Dimensions)
        } else if self.initial_mean@.len() != self.dimensions {
            Some(InvalidOptionsError::MeanDimensionMismatch)
        } else if self.population_size < 4 {
            Some(InvalidOptionsError::PopulationSize)
        } else if !step_size_accepted(self.initial_step_size) {
            Some(InvalidOptionsError::InitialStepSize)
        } else if !learning_rate_accepted(self.cm) {
            Some(InvalidOptionsError::Cm)
        } else {
            None
        }
    }

    /// Creates a new `CMAESOptions` with default values. Set individual options using
    /// the provided methods.
    pub fn new(dimensions: usize) -> (r: CMAESOptions)
        ensures
            r.dimensions == dimensions,
            r.initial_mean@ == Seq::new(dimensions as nat, |i: int| Scalar { bits: 0 }),
            r.initial_step_size.bits == ONE_HALF_BITS,
            r.population_size == default_population_size(dimensions as nat),
            r.weights == Weights::Negative,
            r.cm.bits == ONE_BITS,
            r.tol_fun.bits == DEFAULT_TOL_FUN_BITS,
            r.tol_x is None,
            r.seed is None,
            r.plot_options is None,
            r.print_gap_evals is None,
    {
        let mut initial_mean: Vec<Scalar> = Vec::new();
        let mut i: usize = 0;
        while i < dimensions
            invariant
                i <= dimensions,
                initial_mean@ == Seq::new(i as nat, |j: int| Scalar { bits: 0 }),
            decreases dimensions - i,
        {
            initial_mean.push(Scalar::zero());
            i += 1;
        }
        let mut steps: usize = 0;
        while steps < LOG_STEP_COUNT && LOG_STEPS[steps] <= dimensions as u64
            invariant
                steps <= LOG_STEP_COUNT,
                steps == log_steps_reached(dimensions as nat, steps as nat),
            decreases LOG_STEP_COUNT - steps,
        {
            steps += 1;
        }
        proof {
            lemma_no_step_after(dimensions as nat, steps as nat, LOG_STEP_COUNT as nat);
        }
        CMAESOptions {
            dimensions,
            initial_mean,
            initial_step_size: Scalar::from_bits(ONE_HALF_BITS),
            population_size: 4 + steps,
            weights: Weights::Negative,
            cm: Scalar::from_bits(ONE_BITS),
            tol_fun: Scalar::from_bits(DEFAULT_TOL_FUN_BITS),
            tol_x: None,
            seed: None,
            plot_options: None,
            print_gap_evals: None,
        }
    }

    /// Changes the initial mean from the origin.
    pub fn initial_mean(self, initial_mean: Vec<Scalar>) -> (r: CMAESOptions)
        ensures
            r == (CMAESOptions { initial_mean, ..self }),
    {
        let mut options = self;
        options.initial_mean = initial_mean;
        options
    }

    /// Changes the initial step size from the default value. Must be positive.
    pub fn initial_step_size(self, initial_step_size: Scalar) -> (r: CMAESOptions)
        ensures
            r == (CMAESOptions { initial_step_size, ..self }),
    {
        let mut options = self;
        options.initial_step_size = initial_step_size;
        options
    }

    /// Changes the population size from the default value. Must be at least 4.
    pub fn population_size(self, population_size: usize) -> (r: CMAESOptions)
        ensures
            r == (CMAESOptions { population_size, ..self }),
    {
        let mut options = self;
        options.population_size = population_size;
        options
    }

    /// Changes the weight distribution from the default value. See [`Weights`] for
    /// possible distributions.
    pub fn weights(self, weights: Weights) -> (r: CMAESOptions)
        ensures
            r == (CMAESOptions { weights, ..self }),
    {
        let mut options = self;
        options.weights = weights;
        options
    }

    /// Changes the learning rate for the mean from the default value. Must be above
    /// `0.0` and no more than `1.0`.
    pub fn cm(self, cm: Scalar) -> (r: CMAESOptions)
        ensures
            r == (CMAESOptions { cm, ..self }),
    {
        let mut options = self;
        options.cm = cm;
        options
    }

    /// Changes the value for the `TolFun` termination criterion from the default value.
    pub fn tol_fun(self, tol_fun: Scalar) -> (r: CMAESOptions)
        ensures
            r == (CMAESOptions { tol_fun, ..self }),
    {
        let mut options = self;
        options.tol_fun = tol_fun;
        options
    }

    /// Changes the value for the `TolX` termination criterion from the default value.
    pub fn tol_x(self, tol_x: Scalar) -> (r: CMAESOptions)
        ensures
            r == (CMAESOptions { tol_x: Some(tol_x), ..self }),
    {
        let mut options = self;
        options.tol_x = Some(tol_x);
        options
    }

    /// Sets the seed for the RNG.
    pub fn seed(self, seed: u64) -> (r: CMAESOptions)
        ensures
            r == (CMAESOptions { seed: Some(seed), ..self }),
    {
        let mut options = self;
        options.seed = Some(seed);
        options
    }

    /// Enables recording of a data plot for various state variables of the algorithm.
    pub fn enable_plot(self, plot_options: PlotOptions) -> (r: CMAESOptions)
        ensures
            r == (CMAESOptions { plot_options: Some(plot_options), ..self }),
    {
        let mut options = self;
        options.plot_options = Some(plot_options);
        options
    }

    /// Enables automatic printing of various state variables of the algorithm, with at
    /// least `min_gap_evals` function evaluations between two printings.
    pub fn enable_printing(self, min_gap_evals: usize) -> (r: CMAESOptions)
        ensures
            r == (CMAESOptions { print_gap_evals: Some(min_gap_evals), ..self }),
    {
        let mut options = self;
        options.print_gap_evals = Some(min_gap_evals);
        options
    }

    /// Checks the options: `Ok` if nothing is wrong with them, else the first defect.
    pub fn validate(&self) -> (r: Result<(), InvalidOptionsError>)
        ensures
            r is Ok <==> self.defect() is None,
            r is Err ==> self.defect() == Some(r->Err_0),
    {
        let zero = Scalar::zero();
        if self.dimensions == 0 {
            Err(InvalidOptionsError::Dimensions)
        } else if self.initial_mean.len() != self.dimensions {
            Err(InvalidOptionsError::MeanDimensionMismatch)
        } else if self.population_size < 4 {
            Err(InvalidOptionsError::PopulationSize)
        } else if !self.initial_step_size.gt(zero) {
            Err(InvalidOptionsError::InitialStepSize)
        } else if !(self.cm.gt(zero) && self.cm.le(Scalar::from_bits(ONE_BITS))) {
            Err(InvalidOptionsError::Cm)
        } else {
            Ok(())
        }
    }

    /// Checks the options and, if nothing is wrong with them, hands them on as the
    /// settings of a run. Nothing of a run exists before this has succeeded.
    pub fn build(self) -> (r: Result<ValidatedOptions, InvalidOptionsError>)
        ensures
            r is Ok <==> self.defect() is None,
            r is Ok ==> r->Ok_0@ == self,
            r is Err ==> self.defect() == Some(r->Err_0),
    {
        match self.validate() {
            Ok(()) => Ok(ValidatedOptions { options: self }),
            Err(e) => Err(e),
        }
    }
}

/// Options that have passed every check of [`CMAESOptions::validate`].
pub struct ValidatedOptions {
    options: CMAESOptions,
}

impl View for ValidatedOptions {
    type V = CMAESOptions;

    closed spec fn view(&self) -> CMAESOptions {
        self.options
    }
}

impl ValidatedOptions {
    #[verifier::type_invariant]
    spec fn checked(&self) -> bool {
        self.options.defect() is None
    }

    /// The options, with nothing wrong with them.
    pub fn options(&self) -> (r: &CMAESOptions)
        ensures
            *r == self@,
            r.defect() is None,
    {
        proof {
            use_type_invariant(self);
        }
        &self.options
    }

    /// Gives the options back, to be changed and checked again.
    pub fn into_options(self) -> (r: CMAESOptions)
        ensures
            r == self@,
            r.defect() is None,
    {
        proof {
            use_type_invariant(&self);
        }
        self.options
    }
}

/// The default step size is one half, and the default and greatest learning rate of
/// the mean is one: `2^1073` and `2^1074` units of `2^-1074`.
pub proof fn lemma_default_numbers()
    ensures
        (Scalar { bits: ONE_HALF_BITS })@ == Value::Finite(pow2(1073) as int),
        (Scalar { bits: ONE_BITS })@ == Value::Finite(pow2(1074) as int),
        step_size_accepted(Scalar { bits: ONE_HALF_BITS }),
        learning_rate_accepted(Scalar { bits: ONE_BITS }),
{
    lemma_power_of_two(1022);
    lemma_power_of_two(1023);
    lemma_pow2_pos(1073);
    lemma_pow2_pos(1074);
}

/// Once an entry of the table exceeds `n`, no later one is reached by `n`.
proof fn lemma_no_step_after(n: nat, from: nat, upto: nat)
    requires
        from <= upto <= LOG_STEP_COUNT,
        from < LOG_STEP_COUNT ==> LOG_STEPS[from as int] > n,
    ensures
        log_steps_reached(n, upto) == log_steps_reached(n, from),
    decreases upto,
{
    if from < upto {
        lemma_no_step_after(n, from, (upto - 1) as nat);
        lemma_log_steps_ascend(from as int, upto - 1);
    }
}

/// The table ascends.
proof fn lemma_log_steps_ascend(i: int, j: int)
    requires
        0 <= i <= j < LOG_STEP_COUNT,
    ensures
        LOG_STEPS[i] <= LOG_STEPS[j],
    decreases j - i,
{
    if i < j {
        lemma_log_steps_ascend(i, j - 1);
        assert(LOG_STEPS[j - 1] <= LOG_STEPS[j]);
    }
}

} // verus!
