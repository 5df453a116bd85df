//! Zero-padding and framing of an input signal.
//!
//! The signal is padded symmetrically by `window_len - hop_size` samples (the
//! left side gets half, rounded down) and cut into frames of `window_len`
//! samples that start every `hop_size` samples. A trailing part shorter than a
//! hop makes no frame.

use vstd::prelude::*;
use vstd::arithmetic::div_mod::lemma_fundamental_div_mod;
use crate::errors::SignalError;

verus! {

/// The number of zero samples put before the signal.
pub open spec fn left_padding(window_len: nat, hop_size: nat) -> nat {
    ((window_len - hop_size) as nat) / 2
}

/// The signal with `window_len - hop_size` copies of `zero` around it, the
/// left side getting half of them, rounded down.
pub open spec fn padded<T>(signal: Seq<T>, zero: T, window_len: nat, hop_size: nat) -> Seq<T> {
    let left = left_padding(window_len, hop_size);
    Seq::new(
        (signal.len() + window_len - hop_size) as nat,
        |i: int|
            if left <= i < left + signal.len() {
                signal[i - left]
            } else {
                zero
            },
    )
}

/// The number of frames that a signal of `signal_len` samples gives.
pub open spec fn frame_count(signal_len: nat, hop_size: nat) -> nat {
    signal_len / hop_size
}

/// The frames of the padded signal: frame `f` is the `window_len` samples
/// that start at `f * hop_size`.
pub open spec fn frames<T>(signal: Seq<T>, zero: T, window_len: nat, hop_size: nat) -> Seq<Seq<T>> {
    let p = padded(signal, zero, window_len, hop_size);
    Seq::new(
        frame_count(signal.len(), hop_size),
        |f: int| p.subrange(f * hop_size, f * hop_size + window_len),
    )
}

/// A hop size is accepted when it is positive and at most the window length.
pub open spec fn valid_hop(window_len: nat, hop_size: nat) -> bool {
    0 < hop_size <= window_len
}

/// Pads `signal` symmetrically with `zero` for frames of `window_len` samples
/// taken every `hop_size` samples.
///
/// The hop size is checked before the signal's length.
pub fn pad_input_signal<T: Copy>(signal: &[T], zero: T, window_len: usize, hop_size: usize) -> (r:
    Result<Vec<T>, SignalError>)
    requires
        signal@.len() + window_len <= usize::MAX,
    ensures
        !valid_hop(window_len as nat, hop_size as nat) ==> r == Err::<Vec<T>, SignalError>(
            SignalError::InvalidHopSize,
        ),
        valid_hop(window_len as nat, hop_size as nat) && signal@.len() == 0 ==> r == Err::<
            Vec<T>,
            SignalError,
        >(SignalError::EmptyInputSignal),
        valid_hop(window_len as nat, hop_size as nat) && signal@.len() > 0 ==> (r matches Ok(v)
            && v@ == padded(signal@, zero, window_len as nat, hop_size as nat)),
{
    if hop_size == 0 || hop_size > window_len {
        return Err(SignalError::InvalidHopSize);
    }
    let signal_len = signal.len();
    if signal_len == 0 {
        return Err(SignalError::EmptyInputSignal);
    }
    let padding = window_len - hop_size;
    let left = padding / 2;
    let total = signal_len + padding;
    let ghost target = padded(signal@, zero, window_len as nat, hop_size as nat);
    let mut out: Vec<T> = Vec::with_capacity(total);
    let mut i: usize = 0;
    while i < total
        invariant
            total == signal_len + padding,
            left == padding / 2,
            padding == window_len - hop_size,
            signal_len == signal@.len(),
            target.len() == total,
            target == padded(signal@, zero, window_len as nat, hop_size as nat),
            i <= total,
            out@.len() == i,
            forall|j: int| 0 <= j < i ==> out@[j] == target[j],
        decreases total - i,
    {
        if left <= i && i < left + signal_len {
            out.push(signal[i - left]);
        } else {
            out.push(zero);
        }
        i = i + 1;
    }
    assert(out@ =~= target);
    Ok(out)
}

/// What framing gives: an error for an empty signal, then for a hop size that
/// is not accepted, else the frames.
pub open spec fn framing<T>(signal: Seq<T>, zero: T, window_len: nat, hop_size: nat) -> Result<
    Seq<Seq<T>>,
    SignalError,
> {
    if signal.len() == 0 {
        Err(SignalError::EmptyInputSignal)
    } else if !valid_hop(window_len, hop_size) {
        Err(SignalError::InvalidHopSize)
    } else {
        Ok(frames(signal, zero, window_len, hop_size))
    }
}

/// The contents of each frame of a framing result.
pub open spec fn frames_view<T>(r: Result<Vec<Vec<T>>, SignalError>) -> Result<
    Seq<Seq<T>>,
    SignalError,
> {
    match r {
        Ok(fs) => Ok(fs@.map_values(|v: Vec<T>| v@)),
        Err(e) => Err(e),
    }
}

/// Copies `len` samples of `v` from `start` on.
fn copy_range<T: Copy>(v: &Vec<T>, start: usize, len: usize) -> (r: Vec<T>)
    requires
        start + len <= v@.len(),
    ensures
        r@ == v@.subrange(start as int, start + len),
{
    let n = v.len();
    let mut out: Vec<T> = Vec::with_capacity(len);
    let mut i: usize = 0;
    while i < len
        invariant
            n == v@.len(),
            start + len <= n,
            i <= len,
            out@ == v@.subrange(start as int, start + i),
        decreases len - i,
    {
        out.push(v[start + i]);
        i = i + 1;
        assert(out@ =~= v@.subrange(start as int, start + i));
    }
    out
}

/// Pads `signal` with `zero` and cuts it into frames of `window_len` samples
/// that start every `hop_size` samples; `signal.len() / hop_size` frames come
/// out.
///
/// An empty signal is refused before the hop size is checked.
pub fn frame_input_signal<T: Copy>(
    signal: &[T],
    zero: T,
    window_len: usize,
    hop_size: usize,
) -> (r: Result<Vec<Vec<T>>, SignalError>)
    requires
        signal@.len() + window_len <= usize::MAX,
    ensures
        frames_view(r) == framing(signal@, zero, window_len as nat, hop_size as nat),
{
    let signal_len = signal.len();
    if signal_len == 0 {
        return Err(SignalError::EmptyInputSignal);
    }
    if hop_size == 0 || hop_size > window_len {
        return Err(SignalError::InvalidHopSize);
    }
    let padded_signal = match pad_input_signal(signal, zero, window_len, hop_size) {
        Ok(v) => v,
        Err(e) => return Err(e),
    };
    let num_frames = signal_len / hop_size;
    let ghost target = frames(signal@, zero, window_len as nat, hop_size as nat);
    let mut out: Vec<Vec<T>> = Vec::with_capacity(num_frames);
    let mut f: usize = 0;
    while f < num_frames
        invariant
            0 < hop_size <= window_len,
            signal_len == signal@.len(),
            signal_len + window_len <= usize::MAX,
            num_frames == signal_len / hop_size,
            padded_signal@ == padded(signal@, zero, window_len as nat, hop_size as nat),
            target == frames(signal@, zero, window_len as nat, hop_size as nat),
            f <= num_frames,
            out@.len() == f,
            forall|g: int| 0 <= g < f ==> (#[trigger] out@[g])@ == target[g],
        decreases num_frames - f,
    {
        proof {
            lemma_fundamental_div_mod(signal_len as int, hop_size as int);
            assert(f * hop_size + hop_size <= signal_len) by (nonlinear_arith)
                requires
                    f < num_frames,
                    num_frames == signal_len / hop_size,
                    signal_len == hop_size * (signal_len / hop_size) + signal_len % hop_size,
                    0 <= signal_len % hop_size,
                    hop_size > 0,
            ;
        }
        let start = f * hop_size;
        let frame = copy_range(&padded_signal, start, window_len);
        out.push(frame);
        f = f + 1;
    }
    assert(out@.map_values(|v: Vec<T>| v@) =~= target);
    Ok(out)
}

/// Framing the same signal twice, with the same hop size and window length,
/// gives the same frames or the same error.
pub proof fn lemma_framing_repeatable<T>(
    signal: Seq<T>,
    zero: T,
    window_len: nat,
    hop_size: nat,
    first: Result<Vec<Vec<T>>, SignalError>,
    second: Result<Vec<Vec<T>>, SignalError>,
)
    requires
        frames_view(first) == framing(signal, zero, window_len, hop_size),
        frames_view(second) == framing(signal, zero, window_len, hop_size),
    ensures
        frames_view(first) == frames_view(second),
{
}

/// A non-empty signal with an accepted hop size gives `signal.len() / hop_size`
/// frames of `window_len` samples each.
pub proof fn lemma_frame_shape<T>(signal: Seq<T>, zero: T, window_len: nat, hop_size: nat)
    requires
        signal.len() > 0,
        valid_hop(window_len, hop_size),
    ensures
        framing(signal, zero, window_len, hop_size) matches Ok(fs) && fs.len() == signal.len()
            / hop_size && forall|f: int| 0 <= f < fs.len() ==> (#[trigger] fs[f]).len()
            == window_len,
{
    let fs = frames(signal, zero, window_len, hop_size);
    assert forall|f: int| 0 <= f < fs.len() implies (#[trigger] fs[f]).len() == window_len by {
        lemma_frame_in_bounds(signal.len(), window_len, hop_size, f);
    }
}

/// A frame that starts at `f * hop_size` ends inside the padded signal.
proof fn lemma_frame_in_bounds(signal_len: nat, window_len: nat, hop_size: nat, f: int)
    requires
        valid_hop(window_len, hop_size),
        0 <= f < signal_len / hop_size,
    ensures
        0 <= f * hop_size,
        f * hop_size + window_len <= signal_len + window_len - hop_size,
{
    lemma_fundamental_div_mod(signal_len as int, hop_size as int);
    assert(f * hop_size + hop_size <= signal_len) by (nonlinear_arith)
        requires
            f < signal_len / hop_size,
            signal_len == hop_size * (signal_len / hop_size) + signal_len % hop_size,
            0 <= signal_len % hop_size,
            hop_size > 0,
    ;
    assert(0 <= f * hop_size) by (nonlinear_arith)
        requires
            0 <= f,
            hop_size > 0,
    ;
}

/// A signal whose every sample is `zero` gives frames whose every sample is
/// `zero`.
pub proof fn lemma_silent_signal_frames<T>(signal: Seq<T>, zero: T, window_len: nat, hop_size: nat)
    requires
        signal.len() > 0,
        valid_hop(window_len, hop_size),
        forall|i: int| 0 <= i < signal.len() ==> signal[i] == zero,
    ensures
        framing(signal, zero, window_len, hop_size) matches Ok(fs) && fs.len() == signal.len()
            / hop_size && forall|f: int, k: int|
            0 <= f < fs.len() && 0 <= k < window_len ==> #[trigger] fs[f][k] == zero,
{
    let fs = frames(signal, zero, window_len, hop_size);
    let p = padded(signal, zero, window_len, hop_size);
    assert forall|f: int, k: int| 0 <= f < fs.len() && 0 <= k < window_len implies #[trigger] fs[f][k]
        == zero by {
        lemma_frame_in_bounds(signal.len(), window_len, hop_size, f);
        assert(fs[f][k] == p[f * hop_size + k]);
    }
}

} // verus!
