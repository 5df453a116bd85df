//! The error types of the transform, each with a one-line message.

use vstd::prelude::*;

verus! {

/// Why a set of transform parameters was rejected.
#[derive(Debug, Clone, Copy, PartialEq, Eq, Structural)]
pub enum CQTParamsError {
    InvalidMinFrequency,
    InvalidMaxFrequency,
    InvalidBinsPerOctave,
    InvalidSampleRate,
    InvalidWindowLength,
}

impl CQTParamsError {
    /// The message that describes this error.
    pub open spec fn spec_message(self) -> Seq<char> {
        match self {
            CQTParamsError::InvalidMinFrequency =>
                "Invalid minimum frequency: must be a positive number"@,
            CQTParamsError::InvalidMaxFrequency =>
                "Invalid maximum frequency: must be a positive number and greater than the minimum frequency"@,
            CQTParamsError::InvalidBinsPerOctave =>
                "Invalid bins per octave: must be a positive integer"@,
            CQTParamsError::InvalidSampleRate => "Invalid sample rate: must be a positive integer"@,
            CQTParamsError::InvalidWindowLength =>
                "Invalid window length: must be a positive integer"@,
        }
    }

    /// Returns the human-readable message of this error.
    pub fn message(&self) -> (r: String)
        ensures
            r@ == self.spec_message(),
    {
        match self {
            CQTParamsError::InvalidMinFrequency =>
                "Invalid minimum frequency: must be a positive number".to_owned(),
            CQTParamsError::InvalidMaxFrequency =>
                "Invalid maximum frequency: must be a positive number and greater than the minimum frequency".to_owned(),
            CQTParamsError::InvalidBinsPerOctave =>
                "Invalid bins per octave: must be a positive integer".to_owned(),
            CQTParamsError::InvalidSampleRate =>
                "Invalid sample rate: must be a positive integer".to_owned(),
            CQTParamsError::InvalidWindowLength =>
                "Invalid window length: must be a positive integer".to_owned(),
        }
    }
}

/// Why a normalization factor could not be computed.
#[derive(Debug, Clone, Copy, PartialEq, Eq, Structural)]
pub enum NormalizationError {
    InvalidWindowLength,
}

impl NormalizationError {
    /// The message that describes this error.
    pub open spec fn spec_message(self) -> Seq<char> {
        match self {
            NormalizationError::InvalidWindowLength =>
                "Invalid window length: must be greater than zero"@,
        }
    }

    /// Returns the human-readable message of this error.
    pub fn message(&self) -> (r: String)
        ensures
            r@ == self.spec_message(),
    {
        match self {
            NormalizationError::InvalidWindowLength =>
                "Invalid window length: must be greater than zero".to_owned(),
        }
    }
}

/// Why a Q factor could not be computed.
#[derive(Debug, Clone, Copy, PartialEq, Eq, Structural)]
pub enum QFactorError {
    InvalidBinsPerOctave,
}

impl QFactorError {
    /// The message that describes this error.
    pub open spec fn spec_message(self) -> Seq<char> {
        match self {
            QFactorError::InvalidBinsPerOctave =>
                "Invalid bins per octave: must be a positive integer"@,
        }
    }

    /// Returns the human-readable message of this error.
    pub fn message(&self) -> (r: String)
        ensures
            r@ == self.spec_message(),
    {
        match self {
            QFactorError::InvalidBinsPerOctave =>
                "Invalid bins per octave: must be a positive integer".to_owned(),
        }
    }
}

/// Why an input signal could not be processed.
#[derive(Debug, Clone, Copy, PartialEq, Eq, Structural)]
pub enum SignalError {
    InvalidHopSize,
    EmptyInputSignal,
}

impl SignalError {
    /// The message that describes this error.
    pub open spec fn spec_message(self) -> Seq<char> {
        match self {
            SignalError::InvalidHopSize =>
                "Invalid hop size: hop size should be greater than 0 and less than or equal to the window length."@,
            SignalError::EmptyInputSignal =>
                "Empty input signal: the input signal should not be empty."@,
        }
    }

    /// Returns the human-readable message of this error.
    pub fn message(&self) -> (r: String)
        ensures
            r@ == self.spec_message(),
    {
        match self {
            SignalError::InvalidHopSize =>
                "Invalid hop size: hop size should be greater than 0 and less than or equal to the window length.".to_owned(),
            SignalError::EmptyInputSignal =>
                "Empty input signal: the input signal should not be empty.".to_owned(),
        }
    }
}

/// Why a filterbank could not be built.
#[derive(Debug, Clone, Copy, PartialEq, Eq, Structural)]
pub enum CQTFilterbankError {
    InvalidParams,
    FFTError,
}

impl CQTFilterbankError {
    /// The message that describes this error.
    pub open spec fn spec_message(self) -> Seq<char> {
        match self {
            CQTFilterbankError::InvalidParams => "Invalid parameters for CQT filterbank"@,
            CQTFilterbankError::FFTError => "FFT error in CQT filterbank computation"@,
        }
    }

    /// Returns the human-readable message of this error.
    pub fn message(&self) -> (r: String)
        ensures
            r@ == self.spec_message(),
    {
        match self {
            CQTFilterbankError::InvalidParams => "Invalid parameters for CQT filterbank".to_owned(),
            CQTFilterbankError::FFTError => "FFT error in CQT filterbank computation".to_owned(),
        }
    }
}

} // verus!
