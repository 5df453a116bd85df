//! Validation of the transform's integer parameters and the rounding of the
//! window length to a power of two.

use vstd::prelude::*;
use vstd::arithmetic::power2::{pow2, lemma2_to64, lemma_pow2_unfold, lemma_pow2_strictly_increases};
use crate::errors::CQTParamsError;

verus! {

/// The largest window length that can be rounded up to a power of two in a `usize`.
pub const MAX_WINDOW_LENGTH: usize = usize::MAX / 2 + 1;

/// `n` is a power of two.
pub open spec fn is_power_of_two(n: int) -> bool {
    exists|k: nat| pow2(k) == n
}

/// `p` is the smallest power of two that is at least `n`.
pub open spec fn is_next_power_of_two(n: int, p: int) -> bool {
    &&& is_power_of_two(p)
    &&& n <= p
    &&& forall|k: nat| n <= #[trigger] pow2(k) ==> p <= pow2(k)
}

/// The first of the parameter checks that fails, in the order: minimum
/// frequency, maximum frequency, bins per octave, sample rate, window length.
pub open spec fn first_param_error(
    min_freq_positive: bool,
    max_freq_above_min: bool,
    bins_per_octave: nat,
    sample_rate: nat,
    window_length: nat,
) -> Option<CQTParamsError> {
    if !min_freq_positive {
        Some(CQTParamsError::InvalidMinFrequency)
    } else if !max_freq_above_min {
        Some(CQTParamsError::InvalidMaxFrequency)
    } else if bins_per_octave == 0 {
        Some(CQTParamsError::InvalidBinsPerOctave)
    } else if sample_rate == 0 {
        Some(CQTParamsError::InvalidSampleRate)
    } else if window_length == 0 {
        Some(CQTParamsError::InvalidWindowLength)
    } else {
        None
    }
}

/// Returns the smallest power of two that is at least `n` (one for zero).
pub fn next_power_of_two(n: usize) -> (r: usize)
    requires
        n <= MAX_WINDOW_LENGTH,
    ensures
        is_next_power_of_two(n as int, r as int),
{
    let mut p: usize = 1;
    let ghost mut k: nat = 0;
    proof {
        lemma2_to64();
    }
    while p < n
        invariant
            n <= MAX_WINDOW_LENGTH,
            p == pow2(k),
            1 <= p,
            k > 0 ==> pow2((k - 1) as nat) < n,
        decreases 2 * n - p,
    {
        proof {
            lemma_pow2_unfold(k + 1);
        }
        p = p * 2;
        proof {
            k = k + 1;
        }
    }
    assert forall|j: nat| n <= #[trigger] pow2(j) implies p <= pow2(j) by {
        if j < k {
            if j < k - 1 {
                lemma_pow2_strictly_increases(j, (k - 1) as nat);
            }
        } else if j > k {
            lemma_pow2_strictly_increases(k, j);
        }
    }
    p
}

/// Returns the first of the parameter checks that fails, if any; the two
/// frequency checks arrive as their outcomes.
pub fn param_error(
    min_freq_positive: bool,
    max_freq_above_min: bool,
    bins_per_octave: usize,
    sample_rate: usize,
    window_length: usize,
) -> (r: Option<CQTParamsError>)
    ensures
        r == first_param_error(
            min_freq_positive,
            max_freq_above_min,
            bins_per_octave as nat,
            sample_rate as nat,
            window_length as nat,
        ),
{
    if !min_freq_positive {
        Some(CQTParamsError::InvalidMinFrequency)
    } else if !max_freq_above_min {
        Some(CQTParamsError::InvalidMaxFrequency)
    } else if bins_per_octave == 0 {
        Some(CQTParamsError::InvalidBinsPerOctave)
    } else if sample_rate == 0 {
        Some(CQTParamsError::InvalidSampleRate)
    } else if window_length == 0 {
        Some(CQTParamsError::InvalidWindowLength)
    } else {
        None
    }
}

/// Checks the transform parameters in their fixed order and, when all hold,
/// returns the window length rounded up to a power of two.
///
/// The two frequency checks arrive as their outcomes: whether the minimum
/// frequency is positive, and whether the maximum exceeds the minimum.
pub fn check_params(
    min_freq_positive: bool,
    max_freq_above_min: bool,
    bins_per_octave: usize,
    sample_rate: usize,
    window_length: usize,
) -> (r: Result<usize, CQTParamsError>)
    requires
        first_param_error(
            min_freq_positive,
            max_freq_above_min,
            bins_per_octave as nat,
            sample_rate as nat,
            window_length as nat,
        ) is None ==> window_length <= MAX_WINDOW_LENGTH,
    ensures
        r is Err <==> first_param_error(
            min_freq_positive,
            max_freq_above_min,
            bins_per_octave as nat,
            sample_rate as nat,
            window_length as nat,
        ) is Some,
        r matches Err(e) ==> Some(e) == first_param_error(
            min_freq_positive,
            max_freq_above_min,
            bins_per_octave as nat,
            sample_rate as nat,
            window_length as nat,
        ),
        r matches Ok(w) ==> is_next_power_of_two(window_length as int, w as int),
{
    match param_error(min_freq_positive, max_freq_above_min, bins_per_octave, sample_rate, window_length) {
        Some(e) => Err(e),
        None => Ok(next_power_of_two(window_length)),
    }
}

/// Each of the five checks, failing alone while the others hold, gives its own
/// error; when all hold there is none.
pub proof fn lemma_each_check_alone(bins_per_octave: nat, sample_rate: nat, window_length: nat)
    requires
        bins_per_octave > 0,
        sample_rate > 0,
        window_length > 0,
    ensures
        first_param_error(false, true, bins_per_octave, sample_rate, window_length) == Some(
            CQTParamsError::InvalidMinFrequency,
        ),
        first_param_error(true, false, bins_per_octave, sample_rate, window_length) == Some(
            CQTParamsError::InvalidMaxFrequency,
        ),
        first_param_error(true, true, 0, sample_rate, window_length) == Some(
            CQTParamsError::InvalidBinsPerOctave,
        ),
        first_param_error(true, true, bins_per_octave, 0, window_length) == Some(
            CQTParamsError::InvalidSampleRate,
        ),
        first_param_error(true, true, bins_per_octave, sample_rate, 0) == Some(
            CQTParamsError::InvalidWindowLength,
        ),
        first_param_error(true, true, bins_per_octave, sample_rate, window_length) is None,
{
}

} // verus!
