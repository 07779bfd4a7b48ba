//! Decision core of a CMA-ES optimizer: the checks on the options of a run, the
//! ranking of a generation, the history of a run and its termination criteria.
//!
//! Numbers are held as the bit patterns of binary64 values ([`Scalar`]). The crate
//! classifies and compares them and leaves all arithmetic on them to its caller.

pub mod extremes;
pub mod generation;
pub mod history;
pub mod matrix;
pub mod options;
pub mod parameters;
pub mod scalar;
pub mod state;
pub mod termination;

pub use history::{History, HistoryView};
pub use matrix::{CovarianceMatrix, Decomposition};
pub use options::{CMAESOptions, InvalidOptionsError, PlotOptions, ValidatedOptions, Weights};
pub use parameters::{Parameters, ParametersView, TerminationParameters};
pub use scalar::{Scalar, Value};
pub use state::{State, StateView, Update};
pub use termination::{
    MeasurementPlan, Measurements, RangePicks, StagnationMedians, StagnationSlices,
    TerminationCheck, TerminationReason,
};
