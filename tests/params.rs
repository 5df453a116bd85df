use cqt_rs::params::{check_params, next_power_of_two, MAX_WINDOW_LENGTH};
use cqt_rs::{CQTFilterbankError, CQTParamsError, NormalizationError};

const BINS_PER_OCTAVE: usize = 12;
const SAMPLE_RATE: usize = 44100;
const WINDOW_LENGTH: usize = 4096;

#[test]
fn valid_parameters_keep_a_power_of_two_window() {
    assert_eq!(check_params(true, true, BINS_PER_OCTAVE, SAMPLE_RATE, WINDOW_LENGTH), Ok(4096));
}

#[test]
fn window_length_is_rounded_up() {
    assert_eq!(check_params(true, true, 12, 22000, 2000), Ok(2048));
    assert_eq!(check_params(true, true, 12, 22000, 1), Ok(1));
    assert_eq!(check_params(true, true, 12, 22000, 4097), Ok(8192));
}

#[test]
fn each_invalid_parameter_gives_its_own_error() {
    assert_eq!(
        check_params(false, true, BINS_PER_OCTAVE, SAMPLE_RATE, WINDOW_LENGTH),
        Err(CQTParamsError::InvalidMinFrequency)
    );
    assert_eq!(
        check_params(true, false, BINS_PER_OCTAVE, SAMPLE_RATE, WINDOW_LENGTH),
        Err(CQTParamsError::InvalidMaxFrequency)
    );
    assert_eq!(
        check_params(true, true, 0, SAMPLE_RATE, WINDOW_LENGTH),
        Err(CQTParamsError::InvalidBinsPerOctave)
    );
    assert_eq!(
        check_params(true, true, BINS_PER_OCTAVE, 0, WINDOW_LENGTH),
        Err(CQTParamsError::InvalidSampleRate)
    );
    assert_eq!(
        check_params(true, true, BINS_PER_OCTAVE, SAMPLE_RATE, 0),
        Err(CQTParamsError::InvalidWindowLength)
    );
}

#[test]
fn the_first_failing_check_wins() {
    assert_eq!(check_params(false, false, 0, 0, 0), Err(CQTParamsError::InvalidMinFrequency));
    assert_eq!(check_params(true, false, 0, 0, 0), Err(CQTParamsError::InvalidMaxFrequency));
    assert_eq!(check_params(true, true, 0, 0, 0), Err(CQTParamsError::InvalidBinsPerOctave));
    assert_eq!(check_params(true, true, 1, 0, 0), Err(CQTParamsError::InvalidSampleRate));
}

#[test]
fn next_power_of_two_values() {
    assert_eq!(next_power_of_two(0), 1);
    assert_eq!(next_power_of_two(1), 1);
    assert_eq!(next_power_of_two(2), 2);
    assert_eq!(next_power_of_two(3), 4);
    assert_eq!(next_power_of_two(1000), 1024);
    assert_eq!(next_power_of_two(1024), 1024);
    assert_eq!(next_power_of_two(MAX_WINDOW_LENGTH), MAX_WINDOW_LENGTH);
    assert_eq!(next_power_of_two(MAX_WINDOW_LENGTH / 2 + 1), MAX_WINDOW_LENGTH);
}

#[test]
fn params_error_messages() {
    assert_eq!(
        CQTParamsError::InvalidMinFrequency.message(),
        "Invalid minimum frequency: must be a positive number"
    );
    assert_eq!(
        CQTParamsError::InvalidMaxFrequency.message(),
        "Invalid maximum frequency: must be a positive number and greater than the minimum frequency"
    );
    assert_eq!(
        CQTParamsError::InvalidBinsPerOctave.message(),
        "Invalid bins per octave: must be a positive integer"
    );
    assert_eq!(
        CQTParamsError::InvalidSampleRate.message(),
        "Invalid sample rate: must be a positive integer"
    );
    assert_eq!(
        CQTParamsError::InvalidWindowLength.message(),
        "Invalid window length: must be a positive integer"
    );
}

#[test]
fn other_error_messages() {
    assert_eq!(
        NormalizationError::InvalidWindowLength.message(),
        "Invalid window length: must be greater than zero"
    );
    assert_eq!(
        CQTFilterbankError::InvalidParams.message(),
        "Invalid parameters for CQT filterbank"
    );
    assert_eq!(
        CQTFilterbankError::FFTError.message(),
        "FFT error in CQT filterbank computation"
    );
}
