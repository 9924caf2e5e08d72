//! Waveform summarization for visualization.
//!
//! A buffer is reduced to a requested number of representative points.
//! When the buffer has at least one sample per point, each point is the
//! peak magnitude of its bucket; when it is shorter than the request,
//! points are taken one per request by nearest-neighbor indexing. The
//! result always has exactly the requested length, and an empty buffer
//! yields all zeros.

use crate::fixed::{fx_abs, fx_abs_spec};
use vstd::math::max;
use vstd::prelude::*;

verus! {

/// The peak magnitude over the index range `[start, end)`, zero when the
/// range is empty.
pub open spec fn bucket_peak(s: Seq<i64>, start: int, end: int) -> int
    decreases end - start,
{
    if end <= start {
        0
    } else {
        max(bucket_peak(s, start, end - 1), fx_abs_spec(s[end - 1] as int))
    }
}

/// The nearest-neighbor sample magnitude for point `i` of `num_points`:
/// the magnitude at index `i * len / num_points`, clamped to the buffer.
pub open spec fn interpolated_at(s: Seq<i64>, num_points: int, i: int) -> int {
    let idx = (i * s.len()) / num_points;
    let clamped = if idx > s.len() - 1 {
        s.len() - 1
    } else {
        idx
    };
    fx_abs_spec(s[clamped] as int)
}

/// Reduces the buffer to exactly `num_points` representative magnitudes.
pub fn generate_waveform_core(buffer: &Vec<i64>, num_points: usize) -> (r: Vec<i64>)
    requires
        num_points >= 1,
    ensures
        r@.len() == num_points,
        buffer@.len() == 0 ==> forall|i: int| 0 <= i < num_points ==> r@[i] == 0i64,
        buffer@.len() >= 1 && (buffer@.len() as int) / (num_points as int) == 0 ==> forall|i: int|
            0 <= i < num_points ==> r@[i] as int == interpolated_at(
                buffer@,
                num_points as int,
                i,
            ),
        (buffer@.len() as int) / (num_points as int) >= 1 ==> forall|i: int|
            0 <= i < num_points ==> r@[i] as int == bucket_peak(
                buffer@,
                i * ((buffer@.len() as int) / (num_points as int)),
                ({
                    let end = (i + 1) * ((buffer@.len() as int) / (num_points as int));
                    if end > buffer@.len() {
                        buffer@.len() as int
                    } else {
                        end
                    }
                }),
            ),
{
    let n = buffer.len();
    let mut result: Vec<i64> = Vec::new();
    if n == 0 {
        let mut i: usize = 0;
        while i < num_points
            invariant
                0 <= i <= num_points,
                result@.len() == i,
                forall|j: int| 0 <= j < i ==> result@[j] == 0i64,
            decreases num_points - i,
        {
            result.push(0);
            i = i + 1;
        }
        return result;
    }
    let samples_per_point = n / num_points;
    if samples_per_point < 1 {
        let mut i: usize = 0;
        while i < num_points
            invariant
                0 <= i <= num_points,
                n == buffer@.len(),
                n >= 1,
                num_points >= 1,
                result@.len() == i,
                forall|j: int|
                    0 <= j < i ==> result@[j] as int == interpolated_at(
                        buffer@,
                        num_points as int,
                        j,
                    ),
            decreases num_points - i,
        {
            proof {
                assert((i as int) * (n as int) <= 0xffff_ffff_ffff_ffff * 0xffff_ffff_ffff_ffff)
                    by (nonlinear_arith)
                    requires
                        0 <= i as int <= 0xffff_ffff_ffff_ffff,
                        0 <= n as int <= 0xffff_ffff_ffff_ffff,
                ;
            }
            let q = ((i as u128) * (n as u128)) / (num_points as u128);
            let clamped = if q > (n - 1) as u128 {
                n - 1
            } else {
                q as usize
            };
            result.push(fx_abs(buffer[clamped]));
            i = i + 1;
        }
        result
    } else {
        let mut i: usize = 0;
        proof {
            vstd::arithmetic::div_mod::lemma_fundamental_div_mod(n as int, num_points as int);
            vstd::arithmetic::div_mod::lemma_mod_bound(n as int, num_points as int);
        }
        while i < num_points
            invariant
                0 <= i <= num_points,
                n == buffer@.len(),
                num_points >= 1,
                samples_per_point as int == n as int / num_points as int,
                samples_per_point >= 1,
                (num_points as int) * (samples_per_point as int) <= n as int,
                result@.len() == i,
                forall|j: int|
                    0 <= j < i ==> result@[j] as int == bucket_peak(
                        buffer@,
                        j * (samples_per_point as int),
                        ({
                            let end = (j + 1) * (samples_per_point as int);
                            if end > n as int {
                                n as int
                            } else {
                                end
                            }
                        }),
                    ),
            decreases num_points - i,
        {
            proof {
                assert((i as int) * (samples_per_point as int) <= (i as int + 1) * (
                samples_per_point as int) && (i as int + 1) * (samples_per_point as int) <= (
                num_points as int) * (samples_per_point as int)) by (nonlinear_arith)
                    requires
                        0 <= i as int,
                        (i as int) < num_points as int,
                        samples_per_point as int >= 1,
                ;
                assert((i as int + 1) * (samples_per_point as int) <= n as int);
            }
            let start = i * samples_per_point;
            let raw_end = (i + 1) * samples_per_point;
            let end = if raw_end > n {
                n
            } else {
                raw_end
            };
            let mut peak: i64 = 0;
            let mut j = start;
            proof {
                assert(bucket_peak(buffer@, start as int, start as int) == 0);
            }
            while j < end
                invariant
                    start <= j <= end,
                    end <= n,
                    n == buffer@.len(),
                    peak as int == bucket_peak(buffer@, start as int, j as int),
                decreases end - j,
            {
                let amp = fx_abs(buffer[j]);
                if amp > peak {
                    peak = amp;
                }
                j = j + 1;
            }
            result.push(peak);
            i = i + 1;
        }
        result
    }
}

} // verus!
