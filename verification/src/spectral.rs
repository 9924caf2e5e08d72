//! Short-time transform support: Hann windowing, bin magnitudes, spectral
//! subtraction, spectral flux, dominant-bin selection, bin frequencies,
//! and overlap-add accumulation.
//!
//! The forward and inverse transforms themselves are host capabilities;
//! everything before and after a transform call is computed here.

use crate::errors::EngineError;
use crate::fixed::{fx_add, fx_div, fx_mul, fx_sub, isqrt_u128, FX_HALF, FX_ONE};
use crate::fixed::{fx_add_spec, fx_div_spec, fx_mul_spec, fx_sub_spec};
use crate::transcend::{fx_cos, fx_cos_spec, FX_TWO_PI};
use vstd::prelude::*;

verus! {

/// The denoiser's frame length in samples.
pub const DENOISE_FRAME: usize = 2048;

/// The denoiser's hop: a quarter frame, three-quarter overlap.
pub const DENOISE_HOP: usize = 512;

/// The overlap-add normalizer: the frame length times one and a half,
/// compensating window energy and overlap.
pub const OVERLAP_NORM: i64 = 3072;

/// The feature-analysis frame length in samples.
pub const ANALYSIS_FRAME: usize = 1024;

/// The least buffer length the feature analysis accepts.
pub const ANALYSIS_MIN: usize = 512;

/// The Hann window value at position `i` of an `n`-point window:
/// `0.5 * (1 - cos(2 pi i / (n - 1)))`.
pub open spec fn hann_at(n: int, i: int) -> int {
    fx_mul_spec(
        FX_HALF as int,
        fx_sub_spec(FX_ONE as int, fx_cos_spec((FX_TWO_PI as int * i) / (n - 1))),
    )
}

/// An `n`-point Hann window.
pub fn hann_window(n: usize) -> (r: Vec<i64>)
    requires
        2 <= n <= 65536,
    ensures
        r@.len() == n,
        forall|i: int| 0 <= i < n ==> r@[i] as int == hann_at(n as int, i),
{
    let mut r: Vec<i64> = Vec::new();
    let mut i: usize = 0;
    while i < n
        invariant
            0 <= i <= n,
            2 <= n <= 65536,
            r@.len() == i,
            forall|j: int| 0 <= j < i ==> r@[j] as int == hann_at(n as int, j),
        decreases n - i,
    {
        proof {
            assert((FX_TWO_PI as int) * (i as int) <= (FX_TWO_PI as int) * 65535
                && 0 <= (FX_TWO_PI as int) * (i as int) && (((FX_TWO_PI as int) * (i as int)) / (n
                as int - 1)) * (n as int - 1) <= (FX_TWO_PI as int) * (i as int))
                by (nonlinear_arith)
                requires
                    0 <= i as int <= 65535,
                    2 <= n as int,
            ;
            assert(((FX_TWO_PI as int) * (i as int)) / (n as int - 1) <= FX_TWO_PI as int) by {
                if ((FX_TWO_PI as int) * (i as int)) / (n as int - 1) > FX_TWO_PI as int {
                    assert((((FX_TWO_PI as int) * (i as int)) / (n as int - 1)) * (n as int - 1)
                        >= (FX_TWO_PI as int + 1) * (n as int - 1)) by (nonlinear_arith)
                        requires
                            ((FX_TWO_PI as int) * (i as int)) / (n as int - 1) >= FX_TWO_PI as int
                                + 1,
                            n as int - 1 >= 1,
                    ;
                    assert((FX_TWO_PI as int + 1) * (n as int - 1) > (FX_TWO_PI as int) * (i
                        as int)) by (nonlinear_arith)
                        requires
                            i as int <= n as int - 1,
                            n as int - 1 >= 1,
                    ;
                }
            }
        }
        let angle = (((FX_TWO_PI as u128) * (i as u128)) / ((n - 1) as u128)) as i64;
        let w = fx_mul(FX_HALF, fx_sub(FX_ONE, fx_cos(angle)));
        r.push(w);
        i = i + 1;
    }
    r
}

/// The windowed sample at frame offset `j` of a frame starting at `start`:
/// the product of sample and window inside the buffer, zero past its end.
pub open spec fn windowed_at(s: Seq<i64>, window: Seq<i64>, start: int, j: int) -> int {
    if start + j < s.len() {
        fx_mul_spec(s[start + j] as int, window[j] as int)
    } else {
        0
    }
}

/// Extracts one windowed frame, zero-padded past the buffer's end.
pub fn window_frame(buffer: &Vec<i64>, window: &Vec<i64>, start: usize) -> (r: Vec<i64>)
    ensures
        r@.len() == window@.len(),
        forall|j: int|
            0 <= j < window@.len() ==> r@[j] as int == windowed_at(
                buffer@,
                window@,
                start as int,
                j,
            ),
{
    let n = window.len();
    let blen = buffer.len();
    let mut r: Vec<i64> = Vec::new();
    let mut j: usize = 0;
    while j < n
        invariant
            0 <= j <= n,
            n == window@.len(),
            blen == buffer@.len(),
            r@.len() == j,
            forall|k: int|
                0 <= k < j ==> r@[k] as int == windowed_at(buffer@, window@, start as int, k),
        decreases n - j,
    {
        let v = if start <= usize::MAX - j && start + j < blen {
            fx_mul(buffer[start + j], window[j])
        } else {
            0
        };
        r.push(v);
        j = j + 1;
    }
    r
}

/// Whether `m` is the integer square root of `re^2 + im^2`, saturating at
/// the `i64` range: the bin magnitude.
pub open spec fn is_magnitude(re: int, im: int, m: int) -> bool {
    let sq = re * re + im * im;
    (m >= 0 && m * m <= sq && sq < (m + 1) * (m + 1)) || (m == i64::MAX as int && (i64::MAX as int)
        * (i64::MAX as int) <= sq)
}

/// The magnitude of one complex bin.
pub fn bin_magnitude(re: i64, im: i64) -> (m: i64)
    ensures
        is_magnitude(re as int, im as int, m as int),
        m >= 0,
{
    proof {
        assert((re as int) * (re as int) >= 0 && (re as int) * (re as int) <= (
        0x8000_0000_0000_0000 as int) * (0x8000_0000_0000_0000 as int) && (im as int) * (im
            as int) >= 0 && (im as int) * (im as int) <= (0x8000_0000_0000_0000 as int) * (
        0x8000_0000_0000_0000 as int)) by (nonlinear_arith)
            requires
                -0x8000_0000_0000_0000 <= re as int <= 0x7fff_ffff_ffff_ffff,
                -0x8000_0000_0000_0000 <= im as int <= 0x7fff_ffff_ffff_ffff,
        ;
    }
    let rr = ((re as i128) * (re as i128)) as u128;
    let ii = ((im as i128) * (im as i128)) as u128;
    let root = isqrt_u128(rr + ii);
    if root > i64::MAX as u64 {
        proof {
            assert((i64::MAX as int) * (i64::MAX as int) <= (root as int) * (root as int))
                by (nonlinear_arith)
                requires
                    (root as int) >= i64::MAX as int + 1,
            ;
        }
        i64::MAX
    } else {
        root as i64
    }
}

/// The spectral-subtraction rescaling of one bin whose magnitude is `mag`:
/// the magnitude loses `threshold` (floored at zero) and the components
/// are scaled by the new-to-old magnitude ratio; a bin of zero magnitude
/// is cleared.
pub open spec fn subtracted_bin_spec(re: int, im: int, mag: int, threshold: int) -> (int, int) {
    if mag > 0 {
        let new_mag = if mag > threshold {
            fx_sub_spec(mag, threshold)
        } else {
            0
        };
        let scale = fx_div_spec(new_mag, mag);
        (fx_mul_spec(re, scale), fx_mul_spec(im, scale))
    } else {
        (0, 0)
    }
}

/// Applies spectral subtraction to every bin in place, returning the bin
/// magnitudes it measured.
pub fn denoise_spectrum(bins: &mut Vec<(i64, i64)>, threshold: i64) -> (mags: Vec<i64>)
    ensures
        final(bins)@.len() == old(bins)@.len(),
        mags@.len() == old(bins)@.len(),
        forall|k: int|
            0 <= k < old(bins)@.len() ==> is_magnitude(
                old(bins)@[k].0 as int,
                old(bins)@[k].1 as int,
                mags@[k] as int,
            ) && mags@[k] >= 0,
        forall|k: int|
            0 <= k < old(bins)@.len() ==> (final(bins)@[k].0 as int, final(bins)@[k].1 as int)
                == subtracted_bin_spec(
                old(bins)@[k].0 as int,
                old(bins)@[k].1 as int,
                mags@[k] as int,
                threshold as int,
            ),
{
    let n = bins.len();
    let mut mags: Vec<i64> = Vec::new();
    let mut k: usize = 0;
    while k < n
        invariant
            0 <= k <= n,
            bins@.len() == n,
            mags@.len() == k,
            forall|j: int| k <= j < n ==> bins@[j] == old(bins)@[j],
            forall|j: int|
                0 <= j < k ==> is_magnitude(
                    old(bins)@[j].0 as int,
                    old(bins)@[j].1 as int,
                    mags@[j] as int,
                ) && mags@[j] >= 0,
            forall|j: int|
                0 <= j < k ==> (bins@[j].0 as int, bins@[j].1 as int) == subtracted_bin_spec(
                    old(bins)@[j].0 as int,
                    old(bins)@[j].1 as int,
                    mags@[j] as int,
                    threshold as int,
                ),
        decreases n - k,
    {
        let (re, im) = bins[k];
        let mag = bin_magnitude(re, im);
        let scaled = if mag > 0 {
            let new_mag = if mag > threshold {
                fx_sub(mag, threshold)
            } else {
                0
            };
            let scale = fx_div(new_mag, mag);
            (fx_mul(re, scale), fx_mul(im, scale))
        } else {
            (0i64, 0i64)
        };
        bins.set(k, scaled);
        mags.push(mag);
        k = k + 1;
    }
    mags
}

/// Law: a bin with zero components has zero magnitude, and spectral
/// subtraction leaves it zero, whatever the threshold.
pub proof fn lemma_denoise_zero_bin(m: int, threshold: int)
    requires
        is_magnitude(0, 0, m),
    ensures
        m == 0,
        subtracted_bin_spec(0, 0, m, threshold) == (0int, 0int),
{
    assert(forall|q: int| q >= 1 ==> #[trigger] (q * q) >= 1) by (nonlinear_arith);
}

/// The half-wave-rectified spectral flux over the first `n` bins: the
/// saturating sum of the positive magnitude increases.
pub open spec fn flux_sum(current: Seq<i64>, previous: Seq<i64>, n: int) -> int
    decreases n,
{
    if n <= 0 {
        0
    } else {
        let d = fx_sub_spec(current[n - 1] as int, previous[n - 1] as int);
        fx_add_spec(flux_sum(current, previous, n - 1), if d > 0 {
            d
        } else {
            0
        })
    }
}

/// The spectral flux between a current and a previous magnitude sequence,
/// over their common prefix.
pub fn spectral_flux_core(current: &Vec<i64>, previous: &Vec<i64>) -> (r: i64)
    ensures
        r as int == flux_sum(
            current@,
            previous@,
            if current@.len() <= previous@.len() {
                current@.len() as int
            } else {
                previous@.len() as int
            },
        ),
{
    let n = if current.len() <= previous.len() {
        current.len()
    } else {
        previous.len()
    };
    let mut flux: i64 = 0;
    let mut i: usize = 0;
    while i < n
        invariant
            0 <= i <= n,
            n <= current@.len(),
            n <= previous@.len(),
            flux as int == flux_sum(current@, previous@, i as int),
        decreases n - i,
    {
        let d = fx_sub(current[i], previous[i]);
        if d > 0 {
            flux = fx_add(flux, d);
        } else {
            flux = fx_add(flux, 0);
        }
        i = i + 1;
    }
    flux
}

/// Law: the flux of a magnitude sequence against itself is exactly zero;
/// no bin increases.
pub proof fn lemma_flux_identical_zero(s: Seq<i64>, n: int)
    requires
        n <= s.len(),
    ensures
        flux_sum(s, s, n) == 0,
    decreases n,
{
    if n > 0 {
        lemma_flux_identical_zero(s, n - 1);
    }
}

/// The index of the first bin holding the maximum magnitude, zero when no
/// magnitude exceeds zero: the running maximum starts at zero and moves
/// only on a strict increase.
pub open spec fn dominant_scan(s: Seq<i64>, n: int) -> (int, int)
    decreases n,
{
    if n <= 0 {
        (0, 0)
    } else {
        let p = dominant_scan(s, n - 1);
        if s[n - 1] as int > p.1 {
            (n - 1, s[n - 1] as int)
        } else {
            p
        }
    }
}

/// The dominant bin of a magnitude sequence.
pub fn dominant_bin(magnitudes: &Vec<i64>) -> (r: usize)
    ensures
        r as int == dominant_scan(magnitudes@, magnitudes@.len() as int).0,
        magnitudes@.len() == 0 ==> r == 0,
        magnitudes@.len() >= 1 ==> r < magnitudes@.len(),
{
    let n = magnitudes.len();
    let mut best: usize = 0;
    let mut best_mag: i64 = 0;
    let mut i: usize = 0;
    while i < n
        invariant
            0 <= i <= n,
            n == magnitudes@.len(),
            best < n || best == 0,
            (best as int, best_mag as int) == dominant_scan(magnitudes@, i as int),
        decreases n - i,
    {
        let m = magnitudes[i];
        if m > best_mag {
            best = i;
            best_mag = m;
        }
        i = i + 1;
    }
    best
}

/// The center frequency of bin `i`: `i * sample_rate / frame` in Q32.32
/// hertz.
pub open spec fn bin_frequency_spec(i: int, sample_rate: int, frame: int) -> int {
    (i * (sample_rate * FX_ONE as int)) / frame
}

/// The center frequencies of the first `count` bins of a `frame`-point
/// transform.
pub fn bin_frequencies(count: usize, sample_rate: usize, frame: usize) -> (r: Vec<i64>)
    requires
        1 <= frame <= 65536,
        count <= frame,
        1 <= sample_rate <= 1_000_000,
    ensures
        r@.len() == count,
        forall|i: int|
            0 <= i < count ==> r@[i] as int == bin_frequency_spec(
                i,
                sample_rate as int,
                frame as int,
            ),
{
    let sr_fx = (sample_rate as u128) * (FX_ONE as u128);
    let mut r: Vec<i64> = Vec::new();
    let mut i: usize = 0;
    while i < count
        invariant
            0 <= i <= count,
            count <= frame,
            1 <= frame <= 65536,
            1 <= sample_rate <= 1_000_000,
            sr_fx == (sample_rate as int) * (FX_ONE as int),
            r@.len() == i,
            forall|j: int|
                0 <= j < i ==> r@[j] as int == bin_frequency_spec(
                    j,
                    sample_rate as int,
                    frame as int,
                ),
        decreases count - i,
    {
        proof {
            let x = (sample_rate as int) * (FX_ONE as int);
            assert(0 <= (i as int) * x && (i as int) * x <= (frame as int) * x && 0 <= x <= 1_000_000
                * (FX_ONE as int)) by (nonlinear_arith)
                requires
                    0 <= i as int,
                    (i as int) <= frame as int,
                    1 <= sample_rate as int <= 1_000_000,
                    x == (sample_rate as int) * (FX_ONE as int),
            ;
            vstd::arithmetic::div_mod::lemma_div_is_ordered(
                (i as int) * x,
                (frame as int) * x,
                frame as int,
            );
            vstd::arithmetic::div_mod::lemma_div_multiples_vanish(x, frame as int);
            assert((frame as int) * x <= 65536 * (1_000_000 * (FX_ONE as int)))
                by (nonlinear_arith)
                requires
                    0 <= frame as int <= 65536,
                    0 <= x <= 1_000_000 * (FX_ONE as int),
            ;
        }
        let f = (((i as u128) * sr_fx) / (frame as u128)) as i64;
        r.push(f);
        i = i + 1;
    }
    r
}

/// Checks that a buffer is long enough to denoise.
pub fn denoise_check(len: usize) -> (r: Result<(), EngineError>)
    ensures
        r is Ok <==> len >= DENOISE_FRAME,
        r is Err ==> r == Err::<(), EngineError>(EngineError::InsufficientSamples),
{
    if len < DENOISE_FRAME {
        Err(EngineError::InsufficientSamples)
    } else {
        Ok(())
    }
}

/// Adds one processed frame into the output accumulator: each in-range
/// offset gains the windowed frame value divided by the overlap
/// normalizer; samples outside the frame are untouched.
pub fn overlap_add(
    out: &mut Vec<i64>,
    frame: &Vec<i64>,
    window: &Vec<i64>,
    start: usize,
) -> (r: ())
    requires
        frame@.len() == window@.len(),
    ensures
        final(out)@.len() == old(out)@.len(),
        forall|j: int|
            0 <= j < old(out)@.len() && !(start <= j < start + frame@.len()) ==> final(out)@[j]
                == old(out)@[j],
        forall|j: int|
            0 <= j < old(out)@.len() && start <= j < start + frame@.len() ==> final(out)@[j] as int
                == fx_add_spec(
                old(out)@[j] as int,
                fx_div_spec(
                    fx_mul_spec(frame@[j - start] as int, window@[j - start] as int),
                    (OVERLAP_NORM as int) * (FX_ONE as int),
                ),
            ),
{
    let n = frame.len();
    let out_len = out.len();
    let mut j: usize = 0;
    while j < n
        invariant
            0 <= j <= n,
            n == frame@.len(),
            n == window@.len(),
            out_len == old(out)@.len(),
            out@.len() == old(out)@.len(),
            forall|k: int|
                0 <= k < old(out)@.len() && !(start <= k < start + j) ==> out@[k] == old(out)@[k],
            forall|k: int|
                0 <= k < old(out)@.len() && start <= k < start + j ==> out@[k] as int
                    == fx_add_spec(
                    old(out)@[k] as int,
                    fx_div_spec(
                        fx_mul_spec(frame@[k - start] as int, window@[k - start] as int),
                        (OVERLAP_NORM as int) * (FX_ONE as int),
                    ),
                ),
        decreases n - j,
    {
        if start <= usize::MAX - j && start + j < out_len {
            let contribution = fx_div(fx_mul(frame[j], window[j]), OVERLAP_NORM * FX_ONE);
            let updated = fx_add(out[start + j], contribution);
            out.set(start + j, updated);
        }
        j = j + 1;
    }
}

} // verus!
