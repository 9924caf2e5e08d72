//! Whole-buffer feature measurements: root-mean-square level, peak
//! magnitude, zero-crossing rate, and the spectral centroid of a
//! magnitude sequence.

use crate::fixed::{fx_abs, isqrt_u128};
use crate::fixed::{fx_abs_spec, fx_sat};
use vstd::math::max;
use vstd::prelude::*;

verus! {

/// The saturating sum of squares of a prefix, clamped to the `u128` range.
pub open spec fn square_sum(s: Seq<i64>, n: int) -> int
    decreases n,
{
    if n <= 0 {
        0
    } else {
        let t = square_sum(s, n - 1) + (s[n - 1] as int) * (s[n - 1] as int);
        if t > u128::MAX as int {
            u128::MAX as int
        } else {
            t
        }
    }
}

/// The peak magnitude of a prefix.
pub open spec fn peak_of(s: Seq<i64>, n: int) -> int
    decreases n,
{
    if n <= 0 {
        0
    } else {
        max(peak_of(s, n - 1), fx_abs_spec(s[n - 1] as int))
    }
}

/// Whether consecutive samples `prev` and `cur` lie on opposite sides of
/// zero, a non-negative value counting as the upper side.
pub open spec fn is_crossing(prev: int, cur: int) -> bool {
    (cur >= 0 && prev < 0) || (cur < 0 && prev >= 0)
}

/// The number of sign changes among the first `n` samples.
pub open spec fn crossing_count(s: Seq<i64>, n: int) -> int
    decreases n,
{
    if n <= 1 {
        0
    } else {
        crossing_count(s, n - 1) + if is_crossing(s[n - 2] as int, s[n - 1] as int) {
            1int
        } else {
            0int
        }
    }
}

/// The root-mean-square level of the buffer: the integer square root of
/// the mean of the squared samples, zero for an empty buffer. The square
/// accumulation clamps at the `u128` range; the root saturates at the
/// `i64` range.
pub fn calculate_rms_core(buffer: &Vec<i64>) -> (r: i64)
    ensures
        buffer@.len() == 0 ==> r == 0,
        buffer@.len() >= 1 ==> ({
            let mean = square_sum(buffer@, buffer@.len() as int) / (buffer@.len() as int);
            ((r as int) * (r as int) <= mean && mean < ((r as int) + 1) * ((r as int) + 1) && r
                >= 0) || (r == i64::MAX && (i64::MAX as int) * (i64::MAX as int) <= mean)
        }),
{
    let n = buffer.len();
    if n == 0 {
        return 0;
    }
    let mut acc: u128 = 0;
    let mut i: usize = 0;
    while i < n
        invariant
            0 <= i <= n,
            n == buffer@.len(),
            acc as int == square_sum(buffer@, i as int),
        decreases n - i,
    {
        let x = buffer[i] as i128;
        proof {
            assert((x as int) * (x as int) >= 0 && (x as int) * (x as int) <= (
            0x8000_0000_0000_0000 as int) * (0x8000_0000_0000_0000 as int)) by (nonlinear_arith)
                requires
                    -0x8000_0000_0000_0000 <= x as int <= 0x7fff_ffff_ffff_ffff,
            ;
        }
        let sq = (x * x) as u128;
        if acc > u128::MAX - sq {
            acc = u128::MAX;
        } else {
            acc = acc + sq;
        }
        i = i + 1;
    }
    let mean = acc / (n as u128);
    let root = isqrt_u128(mean);
    if root > i64::MAX as u64 {
        proof {
            assert((i64::MAX as int) * (i64::MAX as int) <= (root as int) * (root as int))
                by (nonlinear_arith)
                requires
                    (root as int) >= i64::MAX as int + 1,
            ;
        }
        i64::MAX
    } else {
        root as i64
    }
}

/// The peak magnitude of the buffer, zero for an empty buffer.
pub fn calculate_peak_core(buffer: &Vec<i64>) -> (r: i64)
    ensures
        r as int == peak_of(buffer@, buffer@.len() as int),
{
    let n = buffer.len();
    let mut peak: i64 = 0;
    let mut i: usize = 0;
    while i < n
        invariant
            0 <= i <= n,
            n == buffer@.len(),
            peak as int == peak_of(buffer@, i as int),
        decreases n - i,
    {
        let amp = fx_abs(buffer[i]);
        if amp > peak {
            peak = amp;
        }
        i = i + 1;
    }
    peak
}

/// The zero-crossing rate: the number of sign changes over one less than
/// the buffer length, as a Q32.32 fraction; zero when fewer than two
/// samples.
pub fn calculate_zero_crossing_rate_core(buffer: &Vec<i64>) -> (r: i64)
    ensures
        buffer@.len() <= 1 ==> r == 0,
        buffer@.len() >= 2 ==> r as int == (crossing_count(buffer@, buffer@.len() as int)
            * 0x1_0000_0000) / (buffer@.len() - 1),
{
    let n = buffer.len();
    if n <= 1 {
        return 0;
    }
    let mut count: usize = 0;
    let mut i: usize = 1;
    while i < n
        invariant
            1 <= i <= n,
            n == buffer@.len(),
            count as int == crossing_count(buffer@, i as int),
            count < i,
        decreases n - i,
    {
        let prev = buffer[i - 1];
        let cur = buffer[i];
        if (cur >= 0 && prev < 0) || (cur < 0 && prev >= 0) {
            count = count + 1;
        }
        i = i + 1;
    }
    proof {
        assert((count as int) * 0x1_0000_0000 <= (0xffff_ffff_ffff_ffff as int) * 0x1_0000_0000)
            by (nonlinear_arith)
            requires
                0 <= count as int <= 0xffff_ffff_ffff_ffff,
        ;
        assert((count as int) * 0x1_0000_0000 <= (n as int - 1) * 0x1_0000_0000
            && ((n as int - 1) * 0x1_0000_0000) / (n as int - 1) == 0x1_0000_0000
            && (count as int) * 0x1_0000_0000 >= 0) by (nonlinear_arith)
            requires
                0 <= count as int,
                (count as int) <= n as int - 1,
                n as int >= 2,
        ;
    }
    let scaled = (count as u128) * 0x1_0000_0000u128;
    let q = scaled / ((n - 1) as u128);
    proof {
        vstd::arithmetic::div_mod::lemma_div_is_ordered(
            (count as int) * 0x1_0000_0000,
            (n as int - 1) * 0x1_0000_0000,
            n as int - 1,
        );
    }
    q as i64
}

/// The saturating magnitude-weighted index sum of a prefix.
pub open spec fn weighted_sum(s: Seq<i64>, n: int) -> int
    decreases n,
{
    if n <= 0 {
        0
    } else {
        weighted_sum(s, n - 1) + (n - 1) * (s[n - 1] as int)
    }
}

/// The plain sum of a prefix.
pub open spec fn magnitude_sum(s: Seq<i64>, n: int) -> int
    decreases n,
{
    if n <= 0 {
        0
    } else {
        magnitude_sum(s, n - 1) + s[n - 1] as int
    }
}

/// The spectral centroid of a non-negative magnitude sequence: the
/// magnitude-weighted mean bin index as a Q32.32 value, zero when the
/// magnitudes sum to zero.
pub fn calculate_spectral_centroid_core(magnitudes: &Vec<i64>) -> (r: i64)
    requires
        magnitudes@.len() <= 65536,
        forall|i: int| 0 <= i < magnitudes@.len() ==> magnitudes@[i] >= 0,
    ensures
        magnitude_sum(magnitudes@, magnitudes@.len() as int) == 0 ==> r == 0,
        magnitude_sum(magnitudes@, magnitudes@.len() as int) > 0 ==> r as int == fx_sat(
            (weighted_sum(magnitudes@, magnitudes@.len() as int) * 0x1_0000_0000) / magnitude_sum(
                magnitudes@,
                magnitudes@.len() as int,
            ),
        ),
{
    let n = magnitudes.len();
    let mut weighted: u128 = 0;
    let mut total: u128 = 0;
    let mut i: usize = 0;
    while i < n
        invariant
            0 <= i <= n,
            n == magnitudes@.len(),
            n <= 65536,
            forall|k: int| 0 <= k < n ==> magnitudes@[k] >= 0,
            weighted as int == weighted_sum(magnitudes@, i as int),
            total as int == magnitude_sum(magnitudes@, i as int),
            weighted as int <= (i as int) * (i as int) * 0x7fff_ffff_ffff_ffff,
            total as int <= (i as int) * 0x7fff_ffff_ffff_ffff,
            weighted as int <= 0x1_0002_0001 * 0x7fff_ffff_ffff_ffff,
            total as int <= 65537 * 0x7fff_ffff_ffff_ffff,
        decreases n - i,
    {
        let m = magnitudes[i];
        proof {
            assert((i as int) * (m as int) >= 0 && (i as int) * (m as int) <= (i as int)
                * 0x7fff_ffff_ffff_ffff && (i as int) * 0x7fff_ffff_ffff_ffff <= 65536
                * 0x7fff_ffff_ffff_ffff) by (nonlinear_arith)
                requires
                    0 <= i as int <= 65536,
                    0 <= m as int <= 0x7fff_ffff_ffff_ffff,
            ;
            assert(weighted_sum(magnitudes@, i as int) + (i as int) * (m as int) <= (i as int + 1)
                * (i as int + 1) * 0x7fff_ffff_ffff_ffff && (i as int + 1) * (i as int + 1)
                * 0x7fff_ffff_ffff_ffff <= 0x1_0002_0001 * 0x7fff_ffff_ffff_ffff)
                by (nonlinear_arith)
                requires
                    0 <= i as int <= 65536,
                    weighted_sum(magnitudes@, i as int) <= (i as int) * (i as int)
                        * 0x7fff_ffff_ffff_ffff,
                    (i as int) * (m as int) <= (i as int) * 0x7fff_ffff_ffff_ffff,
                    0 <= (i as int) * (m as int),
            ;
            assert(magnitude_sum(magnitudes@, i as int) + m as int <= (i as int + 1)
                * 0x7fff_ffff_ffff_ffff && (i as int + 1) * 0x7fff_ffff_ffff_ffff <= 65537
                * 0x7fff_ffff_ffff_ffff) by (nonlinear_arith)
                requires
                    0 <= i as int <= 65536,
                    magnitude_sum(magnitudes@, i as int) <= (i as int) * 0x7fff_ffff_ffff_ffff,
                    0 <= m as int <= 0x7fff_ffff_ffff_ffff,
            ;
        }
        weighted = weighted + (i as u128) * (m as u128);
        total = total + (m as u128);
        i = i + 1;
    }
    if total == 0 {
        return 0;
    }
    proof {
        assert(weighted as int * 0x1_0000_0000 <= 0x1_0002_0001 * 0x7fff_ffff_ffff_ffff
            * 0x1_0000_0000 && weighted as int * 0x1_0000_0000 >= 0) by (nonlinear_arith)
            requires
                0 <= weighted as int <= 0x1_0002_0001 * 0x7fff_ffff_ffff_ffff,
        ;
    }
    let scaled = weighted * 0x1_0000_0000u128;
    let q = scaled / total;
    if q > i64::MAX as u128 {
        i64::MAX
    } else {
        q as i64
    }
}

} // verus!
