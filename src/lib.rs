//! Constant-Q transform: parameter validation, signal framing and lookup
//! tables, verified.
//!
//! The floating-point stages (window generation, frequency transform,
//! projection onto the filterbank) run outside this crate on the values that
//! it validates and lays out.

pub mod errors;
pub mod lookup;
pub mod params;
pub mod signal;

pub use errors::{CQTFilterbankError, CQTParamsError, NormalizationError, QFactorError, SignalError};
