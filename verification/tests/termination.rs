use cmaes::termination::{
    MeasurementPlan, Measurements, StagnationMedians, TerminationCheck, TerminationReason,
};
use cmaes::{CMAESOptions, Decomposition, Parameters, Scalar, TerminationParameters, Weights};
use nalgebra::{DMatrix, DVector};
use statrs::statistics::{Data, Median};
use std::collections::VecDeque;
use std::time::Duration;

const DEFAULT_INITIAL_SIGMA: f64 = 0.5;
const DIM: usize = 2;
const MAX_HISTORY_LENGTH: usize = 100;

fn scalar(x: f64) -> Scalar {
    Scalar::from_bits(x.to_bits())
}

fn number(x: Scalar) -> f64 {
    f64::from_bits(x.to_bits())
}

fn scalars<'a, I: Iterator<Item = &'a f64>>(values: I) -> Vec<Scalar> {
    values.map(|x| scalar(*x)).collect()
}

/// The search distribution, as the arithmetic side of a run holds it.
struct State {
    mean: DVector<f64>,
    sigma: f64,
    cov: DMatrix<f64>,
    eigenvectors: DMatrix<f64>,
    sqrt_eigenvalues: DVector<f64>,
    path_c: DVector<f64>,
    generation: usize,
}

impl State {
    fn set_cov(&mut self, cov: DMatrix<f64>) {
        let eigen = cov.clone().symmetric_eigen();
        self.cov = cov;
        self.eigenvectors = eigen.eigenvectors;
        self.sqrt_eigenvalues = eigen.eigenvalues.map(|x| x.sqrt());
    }

    /// The distribution as the library holds it.
    fn held(&self) -> cmaes::State {
        let mut state = cmaes::State::new(scalars(self.mean.iter()), scalar(self.sigma));
        state.set_generation(self.generation);
        state.set_path_c(scalars(self.path_c.iter()));
        assert!(state.cov().takes(&rows(&self.cov)));
        state.set_cov(&rows(&self.cov));
        let decomposition = Decomposition {
            eigenvectors: rows(&self.eigenvectors),
            sqrt_eigenvalues: scalars(self.sqrt_eigenvalues.iter()),
        };
        assert!(decomposition.is_fit(state.dim()));
        let eigenvalues = scalars(self.sqrt_eigenvalues.map(|x| x * x).iter());
        state.set_decomposition(&eigenvalues, decomposition).unwrap();
        state
    }
}

fn rows(matrix: &DMatrix<f64>) -> Vec<Vec<Scalar>> {
    (0..matrix.nrows())
        .map(|i| (0..matrix.ncols()).map(|j| scalar(matrix[(i, j)])).collect())
        .collect()
}

/// Everything a check reads, as the arithmetic side of a run holds it.
struct Run {
    current_function_evals: usize,
    elapsed: Duration,
    parameters: Parameters,
    state: State,
    best_function_value_history: VecDeque<f64>,
    median_function_value_history: VecDeque<f64>,
    max_history_size: usize,
    first_median_value: Option<f64>,
    best_median_value: Option<f64>,
    individuals: Vec<f64>,
}

fn get_parameters(
    initial_sigma: Option<f64>,
    max_function_evals: Option<usize>,
    max_generations: Option<usize>,
    max_time: Option<Duration>,
    tol_fun_hist: Option<f64>,
) -> Parameters {
    let initial_sigma = initial_sigma.unwrap_or(DEFAULT_INITIAL_SIGMA);
    let lambda = 6;
    let cm = 1.0;
    let termination_parameters = TerminationParameters {
        max_function_evals,
        max_generations,
        max_time: max_time.map(|t| t.as_nanos()),
        fun_target: scalar(1e-12),
        tol_fun: scalar(1e-12),
        tol_fun_rel: scalar(1e-12),
        tol_fun_hist: scalar(tol_fun_hist.unwrap_or(1e-12)),
        tol_x: scalar(1e-12 * initial_sigma),
        tol_x_up: scalar(1e8),
        tol_condition_cov: scalar(1e14),
    };
    let options = CMAESOptions::new(DIM)
        .population_size(lambda)
        .weights(Weights::Negative)
        .seed(0)
        .initial_step_size(scalar(initial_sigma))
        .cm(scalar(cm))
        .build()
        .unwrap();
    Parameters::new(&options, termination_parameters)
}

fn get_state(initial_sigma: Option<f64>) -> State {
    State {
        mean: DVector::zeros(DIM),
        sigma: initial_sigma.unwrap_or(DEFAULT_INITIAL_SIGMA),
        cov: DMatrix::identity(DIM, DIM),
        eigenvectors: DMatrix::identity(DIM, DIM),
        sqrt_eigenvalues: DVector::from_element(DIM, 1.0),
        path_c: DVector::zeros(DIM),
        generation: 0,
    }
}

fn get_dummy_generation(function_value: f64) -> Vec<f64> {
    (0..100).map(|_| function_value).collect()
}

fn get_run(initial_sigma: Option<f64>, parameters: Parameters, state: State) -> Run {
    let _ = initial_sigma;
    Run {
        current_function_evals: 0,
        elapsed: Duration::from_secs(0),
        parameters,
        state,
        best_function_value_history: VecDeque::new(),
        median_function_value_history: VecDeque::new(),
        max_history_size: MAX_HISTORY_LENGTH,
        first_median_value: Some(0.0),
        best_median_value: Some(0.0),
        individuals: get_dummy_generation(1.0),
    }
}

fn median_of(history: &VecDeque<f64>, start: usize, length: usize) -> Scalar {
    let values: Vec<f64> = history.iter().skip(start).take(length).cloned().collect();
    scalar(Data::new(values).median())
}

/// Does the arithmetic that the plan asks for.
fn measure(run: &Run, plan: &MeasurementPlan) -> Measurements {
    let state = &run.state;
    let dim = state.mean.len();
    let sigma = state.sigma;
    let initial_sigma = number(run.parameters.initial_sigma());
    let widest = number(plan.widest_axis);
    let narrowest = number(plan.narrowest_axis);
    let shift =
        0.1 * sigma * state.sqrt_eigenvalues[plan.axis] * state.eigenvectors.column(plan.axis);
    let shifted = &state.mean + shift;
    Measurements {
        history_range: plan
            .ranges
            .map(|r| scalar(number(r.history_highest) - number(r.history_lowest))),
        current_range: plan
            .ranges
            .map(|r| scalar(number(r.current_highest) - number(r.current_lowest))),
        relative_tolerance: match (run.first_median_value, run.best_median_value) {
            (Some(first), Some(best)) => {
                Some(scalar(number(run.parameters.tol_fun_rel()) * (first - best).abs()))
            }
            _ => None,
        },
        coordinate_deviations: (0..dim)
            .map(|i| scalar(sigma * state.cov[(i, i)].sqrt()))
            .collect(),
        scaled_path: state.path_c.iter().map(|x| scalar(sigma * *x)).collect(),
        condition: scalar((widest / narrowest).powi(2)),
        axis_shifted_mean: scalars(shifted.iter()),
        coordinate_shifted_mean: (0..dim)
            .map(|i| scalar(state.mean[i] + 0.2 * sigma * state.cov[(i, i)]))
            .collect(),
        stagnation: plan.stagnation.map(|s| StagnationMedians {
            best_recent: median_of(&run.best_function_value_history, 0, s.length),
            best_oldest: median_of(&run.best_function_value_history, s.oldest_start, s.length),
            median_recent: median_of(&run.median_function_value_history, 0, s.length),
            median_oldest: median_of(
                &run.median_function_value_history,
                s.oldest_start,
                s.length,
            ),
        }),
        axis_growth: scalar(sigma * widest / initial_sigma),
    }
}

fn check_termination_criteria(run: &Run) -> Vec<TerminationReason> {
    let state = run.state.held();
    let best: VecDeque<Scalar> = run.best_function_value_history.iter().map(|x| scalar(*x)).collect();
    let median: VecDeque<Scalar> =
        run.median_function_value_history.iter().map(|x| scalar(*x)).collect();
    let individuals = scalars(run.individuals.iter());
    let check = TerminationCheck {
        current_function_evals: run.current_function_evals,
        elapsed: run.elapsed.as_nanos(),
        parameters: &run.parameters,
        state: &state,
        best_function_value_history: &best,
        median_function_value_history: &median,
        max_history_size: run.max_history_size,
        first_median_value: run.first_median_value.map(scalar),
        best_median_value: run.best_median_value.map(scalar),
        individuals: &individuals,
    };
    assert!(check.is_well_formed());
    let plan = check.plan();
    let measurements = measure(run, &plan);
    assert!(measurements.is_answer_to(&check));
    check.check_termination_criteria(&measurements)
}

#[test]
fn test_check_termination_criteria_max_function_evals() {
    let initial_sigma = None;
    let state = get_state(initial_sigma);
    let parameters = get_parameters(initial_sigma, Some(100), None, None, None);
    let mut run = get_run(initial_sigma, parameters, state);
    run.current_function_evals = 100;

    assert_eq!(
        check_termination_criteria(&run),
        vec![TerminationReason::MaxFunctionEvals],
    );
}

#[test]
fn test_check_termination_criteria_max_generations() {
    let initial_sigma = None;
    let mut state = get_state(initial_sigma);
    state.generation = 100;
    let parameters = get_parameters(initial_sigma, None, Some(100), None, None);
    let run = get_run(initial_sigma, parameters, state);

    assert_eq!(
        check_termination_criteria(&run),
        vec![TerminationReason::MaxGenerations],
    );
}

#[test]
fn test_check_termination_criteria_max_time() {
    let initial_sigma = None;
    let state = get_state(initial_sigma);
    let max_time = Duration::from_secs(4);
    let parameters = get_parameters(initial_sigma, None, None, Some(max_time), None);
    let mut run = get_run(initial_sigma, parameters, state);
    run.elapsed = Duration::from_secs(5);

    assert_eq!(
        check_termination_criteria(&run),
        vec![TerminationReason::MaxTime],
    );
}

#[test]
fn test_check_termination_criteria_none() {
    // A fresh state should not meet any termination criteria
    let initial_sigma = None;
    let state = get_state(initial_sigma);
    let parameters = get_parameters(initial_sigma, None, None, None, None);
    let run = get_run(initial_sigma, parameters, state);

    assert!(check_termination_criteria(&run).is_empty());
}

#[test]
fn test_check_termination_criteria_none_large_std_dev() {
    // A large standard deviation in one axis should not meet any termination criteria if
    // the initial step size was also large
    let initial_sigma = Some(1e3);
    let mut state = get_state(initial_sigma);
    state.sigma = 1e4;
    state.set_cov(DMatrix::from_iterator(2, 2, [0.01, 0.0, 0.0, 1e4]));
    let parameters = get_parameters(initial_sigma, None, None, None, None);
    let run = get_run(initial_sigma, parameters, state);

    assert!(check_termination_criteria(&run).is_empty());
}

#[test]
fn test_check_termination_criteria_fun_target() {
    // A best function value below a threshold produces FunTarget
    let initial_sigma = None;
    let state = get_state(initial_sigma);
    let parameters = get_parameters(initial_sigma, None, None, None, None);
    let mut run = get_run(initial_sigma, parameters, state);
    run.individuals = get_dummy_generation(1e-16);

    assert_eq!(
        check_termination_criteria(&run),
        vec![TerminationReason::FunTarget],
    );
}

#[test]
fn test_check_termination_criteria_tol_fun() {
    // Small ranges of current and historical function values produces TolFun
    let initial_sigma = None;
    let state = get_state(initial_sigma);

    let mut best_function_value_history = VecDeque::new();
    best_function_value_history.extend(vec![1.0; 100]);
    best_function_value_history.push_front(1.0 + 1e-13);

    let parameters = get_parameters(initial_sigma, None, None, None, Some(0.0));
    let mut run = get_run(initial_sigma, parameters, state);
    run.individuals = get_dummy_generation(best_function_value_history[0]);
    run.best_function_value_history = best_function_value_history;

    assert_eq!(
        check_termination_criteria(&run),
        vec![TerminationReason::TolFun],
    );
}

#[test]
fn test_check_termination_criteria_tol_fun_rel() {
    // Small ranges of current and historical function values relative to the overall
    // improvement in median function value produces TolFunRel
    let initial_sigma = None;
    let state = get_state(initial_sigma);

    let mut best_function_value_history = VecDeque::new();
    best_function_value_history.extend(vec![1.0; 100]);
    // Outside the range of TolFun
    best_function_value_history.push_front(1.01);

    let parameters = get_parameters(initial_sigma, None, None, None, None);
    let mut run = get_run(initial_sigma, parameters, state);
    // A very large improve increases the range of TolFunRel
    run.first_median_value = Some(1e12);
    run.best_median_value = Some(1.0);
    run.individuals = get_dummy_generation(best_function_value_history[0]);
    run.best_function_value_history = best_function_value_history;

    assert_eq!(
        check_termination_criteria(&run),
        vec![TerminationReason::TolFunRel],
    );
}

#[test]
fn test_check_termination_criteria_tol_fun_hist() {
    // A small range of historical best values produces TolFunHist
    let initial_sigma = None;
    let state = get_state(initial_sigma);

    let mut best_function_value_history = VecDeque::new();
    best_function_value_history.extend(vec![1.0; 100]);
    best_function_value_history.push_front(1.01);

    let parameters = get_parameters(initial_sigma, None, None, None, Some(0.05));
    let mut run = get_run(initial_sigma, parameters, state);
    run.best_function_value_history = best_function_value_history;

    assert_eq!(
        check_termination_criteria(&run),
        vec![TerminationReason::TolFunHist],
    );
}

#[test]
fn test_check_termination_criteria_tol_x() {
    // A small step size and evolution path produces TolX
    let initial_sigma = None;
    let mut state = get_state(initial_sigma);
    state.sigma = 1e-13;
    let parameters = get_parameters(initial_sigma, None, None, None, None);
    let run = get_run(initial_sigma, parameters, state);

    assert_eq!(
        check_termination_criteria(&run),
        vec![TerminationReason::TolX],
    );
}

#[test]
fn test_check_termination_criteria_stagnation() {
    // Median/best function values that change but don't improve for many generations
    // produces Stagnation
    let initial_sigma = None;
    let state = get_state(initial_sigma);

    let mut values = Vec::new();
    values.extend(vec![1.0; 10]);
    values.extend(vec![2.0; 10]);
    values.extend(vec![2.0; 10]);
    values.extend(vec![1.0; 10]);

    let parameters = get_parameters(initial_sigma, None, None, None, None);
    let mut run = get_run(initial_sigma, parameters, state);
    run.best_function_value_history = values.clone().into();
    run.median_function_value_history = values.clone().into();
    run.max_history_size = values.len();

    assert_eq!(
        check_termination_criteria(&run),
        vec![TerminationReason::Stagnation],
    );
}

#[test]
fn test_check_termination_criteria_tol_x_up() {
    // A large increase in maximum standard deviation produces TolXUp
    let initial_sigma = None;
    let mut state = get_state(initial_sigma);
    state.sigma = 1e8;
    let parameters = get_parameters(initial_sigma, None, None, None, None);
    let run = get_run(initial_sigma, parameters, state);

    assert_eq!(
        check_termination_criteria(&run),
        vec![TerminationReason::TolXUp],
    );
}

#[test]
fn test_check_termination_criteria_no_effect_axis() {
    // A lack of available precision along a principal axis in the distribution produces
    // NoEffectAxis
    let initial_sigma = None;
    let mut state = get_state(initial_sigma);

    state.mean = vec![100.0; 2].into();
    state.sigma = 1e-10;

    let eigenvectors = DMatrix::from_columns(&[
        DVector::from(vec![3.0, 2.0]).normalize(),
        DVector::from(vec![-2.0, 3.0]).normalize(),
    ]);
    let sqrt_eigenvalues = DMatrix::from_diagonal(&vec![1e-1, 1e-6].into());
    let cov = &eigenvectors * sqrt_eigenvalues.pow(2) * eigenvectors.transpose();
    state.set_cov(cov);

    let parameters = get_parameters(initial_sigma, None, None, None, None);
    let mut run = get_run(initial_sigma, parameters, state);

    let mut terminated = false;
    for g in 0..DIM {
        run.state.generation = g;

        let termination_reasons = check_termination_criteria(&run);

        if !termination_reasons.is_empty() {
            assert_eq!(termination_reasons, vec![TerminationReason::NoEffectAxis]);
            terminated = true;
        }
    }
    assert!(terminated);
}

#[test]
fn test_check_termination_criteria_no_effect_coord() {
    // A lack of available precision along a coordinate axis in the distribution produces
    // NoEffectCoord
    let initial_sigma = None;
    let mut state = get_state(initial_sigma);

    state.mean = vec![100.0; 2].into();

    let eigenvectors = DMatrix::<f64>::identity(2, 2);
    let sqrt_eigenvalues = DMatrix::from_diagonal(&vec![1e-4, 1e-10].into());
    let cov = &eigenvectors * sqrt_eigenvalues.pow(2) * eigenvectors.transpose();
    state.set_cov(cov);

    let parameters = get_parameters(initial_sigma, None, None, None, None);
    let mut run = get_run(initial_sigma, parameters, state);

    let mut terminated = false;
    for g in 0..DIM {
        run.state.generation = g;

        let termination_reasons = check_termination_criteria(&run);

        if !termination_reasons.is_empty() {
            assert_eq!(termination_reasons, vec![TerminationReason::NoEffectCoord]);
            terminated = true;
        }
    }
    assert!(terminated);
}

#[test]
fn test_check_termination_criteria_condition_cov() {
    // A large difference between the maximum and minimum standard deviations produces
    // TolConditionCov
    let initial_sigma = None;
    let mut state = get_state(initial_sigma);
    state.set_cov(DMatrix::from_iterator(2, 2, [0.99, 0.0, 0.0, 1e14]));
    let parameters = get_parameters(initial_sigma, None, None, None, None);
    let run = get_run(initial_sigma, parameters, state);

    assert_eq!(
        check_termination_criteria(&run),
        vec![TerminationReason::TolConditionCov],
    );
}

fn get_parameters_for(dim: usize, lambda: usize) -> Parameters {
    let termination_parameters = TerminationParameters {
        max_function_evals: None,
        max_generations: None,
        max_time: None,
        fun_target: scalar(1e-12),
        tol_fun: scalar(1e-12),
        tol_fun_rel: scalar(1e-12),
        tol_fun_hist: scalar(1e-12),
        tol_x: scalar(1e-12 * DEFAULT_INITIAL_SIGMA),
        tol_x_up: scalar(1e8),
        tol_condition_cov: scalar(1e14),
    };
    let options = CMAESOptions::new(dim).population_size(lambda).build().unwrap();
    Parameters::new(&options, termination_parameters)
}

fn get_state_for(dim: usize) -> State {
    State {
        mean: DVector::zeros(dim),
        sigma: DEFAULT_INITIAL_SIGMA,
        cov: DMatrix::identity(dim, dim),
        eigenvectors: DMatrix::identity(dim, dim),
        sqrt_eigenvalues: DVector::from_element(dim, 1.0),
        path_c: DVector::zeros(dim),
        generation: 0,
    }
}

fn plan_of(run: &Run) -> MeasurementPlan {
    let state = run.state.held();
    let best: VecDeque<Scalar> = run.best_function_value_history.iter().map(|x| scalar(*x)).collect();
    let median: VecDeque<Scalar> =
        run.median_function_value_history.iter().map(|x| scalar(*x)).collect();
    let individuals = scalars(run.individuals.iter());
    let check = TerminationCheck {
        current_function_evals: run.current_function_evals,
        elapsed: run.elapsed.as_nanos(),
        parameters: &run.parameters,
        state: &state,
        best_function_value_history: &best,
        median_function_value_history: &median,
        max_history_size: run.max_history_size,
        first_median_value: run.first_median_value.map(scalar),
        best_median_value: run.best_median_value.map(scalar),
        individuals: &individuals,
    };
    assert!(check.is_well_formed());
    check.plan()
}

#[test]
fn first_generation_on_a_constant_zero_function_reaches_the_target() {
    // dimension 5, population 6, every function value 0.0, target 1e-12
    let parameters = get_parameters_for(5, 6);
    let mut run = get_run(None, parameters, get_state_for(5));
    run.individuals = vec![0.0; 6];
    run.current_function_evals = 6;
    run.best_function_value_history = vec![0.0].into();
    run.median_function_value_history = vec![0.0].into();
    run.first_median_value = Some(0.0);
    run.best_median_value = Some(0.0);
    assert_eq!(check_termination_criteria(&run), vec![TerminationReason::FunTarget]);
}

#[test]
fn reasons_come_in_a_fixed_order() {
    let mut state = get_state(None);
    state.generation = 100;
    state.sigma = 1e-13;
    let max_time = Duration::from_secs(4);
    let parameters = get_parameters(None, Some(100), Some(100), Some(max_time), None);
    let mut run = get_run(None, parameters, state);
    run.current_function_evals = 100;
    run.elapsed = Duration::from_secs(4);
    run.individuals = get_dummy_generation(1e-16);
    assert_eq!(
        check_termination_criteria(&run),
        vec![
            TerminationReason::MaxFunctionEvals,
            TerminationReason::MaxGenerations,
            TerminationReason::MaxTime,
            TerminationReason::FunTarget,
            TerminationReason::TolX,
        ],
    );
}

#[test]
fn a_reason_does_not_depend_on_the_other_criteria() {
    // TolXUp alone, and TolXUp together with a limit that is reached
    let mut state = get_state(None);
    state.sigma = 1e8;
    let run = get_run(None, get_parameters(None, None, None, None, None), state);
    assert_eq!(check_termination_criteria(&run), vec![TerminationReason::TolXUp]);
    let mut state = get_state(None);
    state.sigma = 1e8;
    let mut run = get_run(None, get_parameters(None, Some(10), None, None, None), state);
    run.current_function_evals = 11;
    assert_eq!(
        check_termination_criteria(&run),
        vec![TerminationReason::MaxFunctionEvals, TerminationReason::TolXUp],
    );
    // and the same check twice gives the same
    assert_eq!(check_termination_criteria(&run), check_termination_criteria(&run));
}

#[test]
fn limits_are_reached_at_the_limit_and_not_before() {
    let parameters = get_parameters(None, Some(100), Some(7), Some(Duration::from_nanos(50)), None);
    let mut run = get_run(None, parameters, get_state(None));
    run.current_function_evals = 99;
    run.state.generation = 6;
    run.elapsed = Duration::from_nanos(49);
    assert!(check_termination_criteria(&run).is_empty());
    run.elapsed = Duration::from_nanos(50);
    assert_eq!(check_termination_criteria(&run), vec![TerminationReason::MaxTime]);
    run.state.generation = 7;
    run.elapsed = Duration::from_nanos(0);
    assert_eq!(check_termination_criteria(&run), vec![TerminationReason::MaxGenerations]);
}

#[test]
fn fun_target_is_reached_at_the_target() {
    let mut run = get_run(None, get_parameters(None, None, None, None, None), get_state(None));
    run.individuals = vec![1.0, 1e-12, 2.0];
    assert_eq!(check_termination_criteria(&run), vec![TerminationReason::FunTarget]);
    run.individuals = vec![1.0, 1.0000000000000002e-12, 2.0];
    assert!(check_termination_criteria(&run).is_empty());
    run.individuals = vec![1.0, f64::NAN, 2.0];
    assert!(check_termination_criteria(&run).is_empty());
    run.individuals = vec![1.0, f64::NEG_INFINITY];
    assert_eq!(check_termination_criteria(&run), vec![TerminationReason::FunTarget]);
}

#[test]
fn history_window_is_ten_and_thirty_dimensions_by_population() {
    // 10 + ceil(30 * N / lambda)
    for (dim, lambda, window) in [(2, 6, 20), (5, 6, 35), (1, 4, 18), (3, 7, 23), (10, 10, 40)] {
        let mut run = get_run(None, get_parameters_for(dim, lambda), get_state_for(dim));
        run.best_function_value_history = vec![1.0; window - 1].into();
        assert!(plan_of(&run).ranges.is_none(), "{dim} {lambda}");
        run.best_function_value_history = vec![1.0; window].into();
        assert_eq!(plan_of(&run).ranges.map(|r| r.window), Some(window), "{dim} {lambda}");
        run.best_function_value_history = vec![1.0; window + 5].into();
        assert_eq!(plan_of(&run).ranges.map(|r| r.window), Some(window), "{dim} {lambda}");
    }
}

#[test]
fn plan_picks_the_extremes_of_the_window_and_of_the_generation() {
    let mut run = get_run(None, get_parameters(None, None, None, None, None), get_state(None));
    let mut history = vec![1.0; 20];
    history[3] = 0.5;
    history[19] = 4.0;
    // beyond the window of 20
    history.push(-100.0);
    history.push(100.0);
    run.best_function_value_history = history.into();
    run.individuals = vec![3.0, 9.0, -2.0, 5.0];
    let picks = plan_of(&run).ranges.unwrap();
    assert_eq!(picks.window, 20);
    assert_eq!(number(picks.history_lowest), 0.5);
    assert_eq!(number(picks.history_highest), 4.0);
    assert_eq!(number(picks.current_lowest), -2.0);
    assert_eq!(number(picks.current_highest), 9.0);
}

#[test]
fn plan_goes_through_the_axes_in_turn() {
    let mut run = get_run(None, get_parameters_for(3, 6), get_state_for(3));
    for generation in 0..10 {
        run.state.generation = generation;
        assert_eq!(plan_of(&run).axis, generation % 3);
    }
    run.state.generation = 3_000_001;
    assert_eq!(plan_of(&run).axis, 1);
}

#[test]
fn plan_picks_the_widest_and_the_narrowest_axis() {
    let mut run = get_run(None, get_parameters_for(3, 6), get_state_for(3));
    run.state.sqrt_eigenvalues = vec![0.5, 3.0, 0.25].into();
    let plan = plan_of(&run);
    assert_eq!(number(plan.widest_axis), 3.0);
    assert_eq!(number(plan.narrowest_axis), 0.25);
}

#[test]
fn plan_names_three_tenths_of_a_full_history() {
    for (size, length) in [(40, 12), (100, 30), (10, 3), (9, 2), (3, 0), (0, 0), (101, 30)] {
        let mut run = get_run(None, get_parameters(None, None, None, None, None), get_state(None));
        run.max_history_size = size;
        run.best_function_value_history = vec![1.0; size].into();
        run.median_function_value_history = vec![1.0; size].into();
        let slices = plan_of(&run).stagnation.unwrap();
        assert_eq!(slices.length, length);
        assert_eq!(slices.oldest_start, size - length);
        assert_eq!(slices.length, (size as f64 * 0.3) as usize);
    }
    let mut run = get_run(None, get_parameters(None, None, None, None, None), get_state(None));
    run.max_history_size = 40;
    run.best_function_value_history = vec![1.0; 40].into();
    run.median_function_value_history = vec![1.0; 39].into();
    assert!(plan_of(&run).stagnation.is_none());
}

#[test]
fn stagnation_needs_both_histories_not_to_improve() {
    // newest first: the values went down from 2.0 to 1.0, or up from 1.0 to 2.0
    let mut improving = vec![1.0; 10];
    improving.extend(vec![1.5; 10]);
    improving.extend(vec![2.0; 20]);
    let mut worsening = vec![2.0; 10];
    worsening.extend(vec![1.5; 10]);
    worsening.extend(vec![1.0; 20]);
    let mut run = get_run(None, get_parameters(None, None, None, None, None), get_state(None));
    run.max_history_size = 40;
    run.best_function_value_history = improving.clone().into();
    run.median_function_value_history = worsening.clone().into();
    assert!(check_termination_criteria(&run).is_empty());
    run.best_function_value_history = worsening.clone().into();
    run.median_function_value_history = improving.clone().into();
    assert!(check_termination_criteria(&run).is_empty());
    run.median_function_value_history = worsening.clone().into();
    assert_eq!(check_termination_criteria(&run), vec![TerminationReason::Stagnation]);
}

#[test]
fn condition_that_is_no_normal_number_stops_the_run() {
    let mut run = get_run(None, get_parameters(None, None, None, None, None), get_state(None));
    run.state.sqrt_eigenvalues = vec![1.0, f64::INFINITY].into();
    // sigma * inf / sigma0 is infinite too
    assert_eq!(
        check_termination_criteria(&run),
        vec![TerminationReason::TolConditionCov, TerminationReason::TolXUp],
    );
}

#[test]
fn a_check_with_the_wrong_dimensions_is_not_well_formed() {
    let parameters = get_parameters(None, None, None, None, None);
    let three_dimensions = cmaes::State::new(vec![scalar(0.0); 3], scalar(0.5));
    let two_dimensions = cmaes::State::new(vec![scalar(0.0); 2], scalar(0.5));
    // a distribution whose covariance matrix is not decomposed, and the same with the
    // matrix decomposed again
    let identity = vec![vec![scalar(1.0), scalar(0.0)], vec![scalar(0.0), scalar(1.0)]];
    let mut written = cmaes::State::new(vec![scalar(0.0); 2], scalar(0.5));
    written.set_cov(&identity);
    let mut decomposed = cmaes::State::new(vec![scalar(0.0); 2], scalar(0.5));
    decomposed.set_cov(&identity);
    let decomposition = Decomposition {
        eigenvectors: identity.clone(),
        sqrt_eigenvalues: vec![scalar(1.0); 2],
    };
    decomposed.set_decomposition(&vec![scalar(1.0); 2], decomposition).unwrap();
    let best: VecDeque<Scalar> = vec![scalar(1.0); 20].into();
    let median: VecDeque<Scalar> = VecDeque::new();
    let individuals: Vec<Scalar> = Vec::new();
    let two = vec![scalar(0.0); 2];
    let mut check = TerminationCheck {
        current_function_evals: 0,
        elapsed: 0,
        parameters: &parameters,
        state: &three_dimensions,
        best_function_value_history: &best,
        median_function_value_history: &median,
        max_history_size: 100,
        first_median_value: None,
        best_median_value: None,
        individuals: &individuals,
    };
    // the distribution has three dimensions and the run has two
    assert!(!check.is_well_formed());
    check.state = &two_dimensions;
    // the window is reached and there is no function value
    assert!(!check.is_well_formed());
    check.individuals = &two;
    assert!(check.is_well_formed());
    check.state = &written;
    assert!(!check.is_well_formed());
    check.state = &decomposed;
    assert!(check.is_well_formed());
    let plan = check.plan();
    let mut measurements = Measurements {
        history_range: None,
        current_range: Some(scalar(0.0)),
        relative_tolerance: None,
        coordinate_deviations: vec![scalar(0.5); 2],
        scaled_path: vec![scalar(0.0); 2],
        condition: scalar(1.0),
        axis_shifted_mean: vec![scalar(0.05), scalar(0.0)],
        coordinate_shifted_mean: vec![scalar(0.1); 2],
        stagnation: None,
        axis_growth: scalar(1.0),
    };
    // the range of the history is missing
    assert!(plan.ranges.is_some());
    assert!(!measurements.is_answer_to(&check));
    measurements.history_range = Some(scalar(0.0));
    assert!(measurements.is_answer_to(&check));
    measurements.scaled_path = vec![scalar(0.0); 3];
    assert!(!measurements.is_answer_to(&check));
}

#[test]
fn reasons_have_their_names() {
    let names = [
        (TerminationReason::MaxFunctionEvals, "MaxFunctionEvals"),
        (TerminationReason::MaxGenerations, "MaxGenerations"),
        (TerminationReason::MaxTime, "MaxTime"),
        (TerminationReason::FunTarget, "FunTarget"),
        (TerminationReason::TolFun, "TolFun"),
        (TerminationReason::TolFunRel, "TolFunRel"),
        (TerminationReason::TolFunHist, "TolFunHist"),
        (TerminationReason::TolX, "TolX"),
        (TerminationReason::Stagnation, "Stagnation"),
        (TerminationReason::TolXUp, "TolXUp"),
        (TerminationReason::NoEffectAxis, "NoEffectAxis"),
        (TerminationReason::NoEffectCoord, "NoEffectCoord"),
        (TerminationReason::TolConditionCov, "TolConditionCov"),
        (TerminationReason::InvalidFunctionValue, "InvalidFunctionValue"),
        (TerminationReason::PosDefCov, "PosDefCov"),
    ];
    for (reason, name) in names {
        assert_eq!(reason.to_string(), name);
        assert_eq!(reason.to_string(), format!("{:?}", reason));
    }
}
