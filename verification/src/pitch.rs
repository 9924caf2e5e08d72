//! Pitch-estimation windowing policy.
//!
//! The estimator itself is a host capability; the engine decides whether a
//! buffer is long enough and which slice of it is analyzed. Buffers
//! shorter than the analysis window yield "no pitch" — a normal outcome,
//! not an error.

use vstd::prelude::*;

verus! {

/// The pitch analysis window length in samples.
pub const PITCH_WINDOW: usize = 1024;

/// The start of the centered pitch analysis window of a buffer of length
/// `len`, defined for `len >= 1024`.
pub open spec fn pitch_window_start(len: int) -> int {
    (len - PITCH_WINDOW as int) / 2
}

/// Where pitch analysis reads: `None` for a buffer shorter than the
/// window, else the start of the centered window and its length.
pub fn pitch_analysis_window(len: usize) -> (r: Option<(usize, usize)>)
    ensures
        len < PITCH_WINDOW ==> r is None,
        len >= PITCH_WINDOW ==> r == Some((
            pitch_window_start(len as int) as usize,
            PITCH_WINDOW,
        )),
{
    if len < PITCH_WINDOW {
        None
    } else {
        Some(((len - PITCH_WINDOW) / 2, PITCH_WINDOW))
    }
}

} // verus!
