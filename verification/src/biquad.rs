//! Second-order recursive (biquad) filters.
//!
//! Coefficients follow the audio-EQ cookbook closed forms, evaluated in
//! Q32.32 arithmetic and normalized so the leading denominator coefficient
//! is one. Processing uses the transposed second-order structure.

use crate::errors::EngineError;
use crate::fixed::{fx_add, fx_div, fx_mul, fx_sub, FX_HALF, FX_ONE};
use crate::fixed::{fx_add_spec, fx_div_spec, fx_mul_spec, fx_sub_spec};
use crate::transcend::{fx_cos, fx_pow10, fx_sin, FX_PI, FX_TWO_PI};
use crate::transcend::{fx_cos_spec, fx_pow10_spec, fx_sin_spec};
use vstd::prelude::*;

verus! {

/// The filter's role: which band of the spectrum it passes or shapes.
#[derive(Clone, Copy, Debug, PartialEq, Eq, Structural)]
pub enum FilterType {
    LowPass,
    HighPass,
    Peaking,
}

/// Normalized biquad coefficients: three numerator terms and the two
/// trailing denominator terms, the leading denominator term being one.
#[derive(Clone, Copy, Debug, PartialEq, Eq, Structural)]
pub struct FilterCoefficients {
    pub b0: i64,
    pub b1: i64,
    pub b2: i64,
    pub a1: i64,
    pub a2: i64,
}

/// A filter configuration as handed across the host boundary: a role, a
/// center or cutoff frequency in Q32.32 hertz, a quality factor, and a
/// gain in Q32.32 decibels (read only by the peaking role).
#[derive(Clone, Copy, Debug, PartialEq, Eq, Structural)]
pub struct FilterConfig {
    pub filter_type: FilterType,
    pub frequency: i64,
    pub q: i64,
    pub gain: i64,
}

impl FilterConfig {
    pub fn new(filter_type: FilterType, frequency: i64, q: i64, gain: i64) -> (r: FilterConfig)
        ensures
            r == (FilterConfig { filter_type, frequency, q, gain }),
    {
        FilterConfig { filter_type, frequency, q, gain }
    }
}

/// Whether a cutoff fraction and quality factor are inside the valid
/// design range: the fraction strictly between zero and one half of the
/// sampling rate, the quality factor strictly positive.
pub open spec fn filter_params_valid(cutoff_fraction: int, q: int) -> bool {
    0 < cutoff_fraction < FX_HALF as int && q > 0
}

/// The audio-EQ cookbook coefficients for a kind, cutoff fraction, quality
/// factor and gain, evaluated in Q32.32 arithmetic and normalized by the
/// leading denominator term.
#[verifier::opaque]
pub open spec fn coefficients_spec(
    kind: FilterType,
    cutoff_fraction: int,
    q: int,
    gain_db: int,
) -> FilterCoefficients {
    let w = fx_mul_spec(FX_TWO_PI as int, cutoff_fraction);
    let sw = fx_sin_spec(w);
    let cw = fx_cos_spec(w);
    let alpha = fx_div_spec(sw, fx_add_spec(q, q));
    let two_cw = fx_add_spec(cw, cw);
    match kind {
        FilterType::LowPass => {
            let one_m = fx_sub_spec(FX_ONE as int, cw);
            let half_m = fx_mul_spec(one_m, FX_HALF as int);
            normalize_spec(
                half_m,
                one_m,
                half_m,
                fx_add_spec(FX_ONE as int, alpha),
                fx_sub_spec(0, two_cw),
                fx_sub_spec(FX_ONE as int, alpha),
            )
        },
        FilterType::HighPass => {
            let one_p = fx_add_spec(FX_ONE as int, cw);
            let half_p = fx_mul_spec(one_p, FX_HALF as int);
            normalize_spec(
                half_p,
                fx_sub_spec(0, one_p),
                half_p,
                fx_add_spec(FX_ONE as int, alpha),
                fx_sub_spec(0, two_cw),
                fx_sub_spec(FX_ONE as int, alpha),
            )
        },
        FilterType::Peaking => {
            let amp = fx_pow10_spec(fx_div_spec(gain_db, 40 * FX_ONE as int));
            normalize_spec(
                fx_add_spec(FX_ONE as int, fx_mul_spec(alpha, amp)),
                fx_sub_spec(0, two_cw),
                fx_sub_spec(FX_ONE as int, fx_mul_spec(alpha, amp)),
                fx_add_spec(FX_ONE as int, fx_div_spec(alpha, amp)),
                fx_sub_spec(0, two_cw),
                fx_sub_spec(FX_ONE as int, fx_div_spec(alpha, amp)),
            )
        },
    }
}

/// Division of every term by the leading denominator term `a0`.
pub open spec fn normalize_spec(
    b0: int,
    b1: int,
    b2: int,
    a0: int,
    a1: int,
    a2: int,
) -> FilterCoefficients {
    FilterCoefficients {
        b0: fx_div_spec(b0, a0) as i64,
        b1: fx_div_spec(b1, a0) as i64,
        b2: fx_div_spec(b2, a0) as i64,
        a1: fx_div_spec(a1, a0) as i64,
        a2: fx_div_spec(a2, a0) as i64,
    }
}

/// One step of the transposed second-order difference equation: the output
/// and the two next state values.
pub open spec fn biquad_step(c: FilterCoefficients, z1: int, z2: int, x: int) -> (int, int, int) {
    let out = fx_add_spec(fx_mul_spec(c.b0 as int, x), z1);
    let nz1 = fx_add_spec(
        fx_sub_spec(fx_mul_spec(c.b1 as int, x), fx_mul_spec(c.a1 as int, out)),
        z2,
    );
    let nz2 = fx_sub_spec(fx_mul_spec(c.b2 as int, x), fx_mul_spec(c.a2 as int, out));
    (out, nz1, nz2)
}

/// The filter state after running a whole input sequence.
pub open spec fn biquad_state_after(
    c: FilterCoefficients,
    z1: int,
    z2: int,
    s: Seq<i64>,
) -> (int, int)
    decreases s.len(),
{
    if s.len() == 0 {
        (z1, z2)
    } else {
        let prev = biquad_state_after(c, z1, z2, s.drop_last());
        let step = biquad_step(c, prev.0, prev.1, s.last() as int);
        (step.1, step.2)
    }
}

/// One second-order recursive filter instance: its coefficient set and its
/// two-value state history.
#[derive(Clone, Copy, Debug, PartialEq, Eq, Structural)]
pub struct BiquadFilter {
    pub coefficients: FilterCoefficients,
    pub z1: i64,
    pub z2: i64,
}

impl BiquadFilter {
    /// A pass-through filter with cleared state.
    pub fn new() -> (r: BiquadFilter)
        ensures
            r.coefficients == (FilterCoefficients { b0: FX_ONE, b1: 0, b2: 0, a1: 0, a2: 0 }),
            r.z1 == 0,
            r.z2 == 0,
    {
        BiquadFilter {
            coefficients: FilterCoefficients { b0: FX_ONE, b1: 0, b2: 0, a1: 0, a2: 0 },
            z1: 0,
            z2: 0,
        }
    }

    /// Computes and stores the cookbook coefficients for the given design
    /// parameters; degenerate parameters are rejected and leave the filter
    /// unchanged. The state history is kept either way.
    pub fn configure(
        &mut self,
        kind: FilterType,
        cutoff_fraction: i64,
        q: i64,
        gain_db: i64,
    ) -> (r: Result<(), EngineError>)
        ensures
            r is Ok <==> filter_params_valid(cutoff_fraction as int, q as int),
            r is Ok ==> final(self).coefficients == coefficients_spec(
                kind,
                cutoff_fraction as int,
                q as int,
                gain_db as int,
            ),
            r is Err ==> r == Err::<(), EngineError>(EngineError::InvalidParameter) && *final(self)
                == *old(self),
            final(self).z1 == old(self).z1,
            final(self).z2 == old(self).z2,
    {
        if cutoff_fraction <= 0 || cutoff_fraction >= FX_HALF || q <= 0 {
            return Err(EngineError::InvalidParameter);
        }
        proof {
            reveal(coefficients_spec);
            assert((FX_TWO_PI as int) * (cutoff_fraction as int) < (FX_TWO_PI as int) * (FX_HALF
                as int) && 0 <= (FX_TWO_PI as int) * (cutoff_fraction as int))
                by (nonlinear_arith)
                requires
                    0 < cutoff_fraction as int,
                    (cutoff_fraction as int) < FX_HALF as int,
            ;
        }
        let w = fx_mul(FX_TWO_PI, cutoff_fraction);
        let sw = fx_sin(w);
        let cw = fx_cos(w);
        let alpha = fx_div(sw, fx_add(q, q));
        let two_cw = fx_add(cw, cw);
        let (b0, b1, b2, a0, a1, a2) = match kind {
            FilterType::LowPass => {
                let one_m = fx_sub(FX_ONE, cw);
                let half_m = fx_mul(one_m, FX_HALF);
                (
                    half_m,
                    one_m,
                    half_m,
                    fx_add(FX_ONE, alpha),
                    fx_sub(0, two_cw),
                    fx_sub(FX_ONE, alpha),
                )
            },
            FilterType::HighPass => {
                let one_p = fx_add(FX_ONE, cw);
                let half_p = fx_mul(one_p, FX_HALF);
                (
                    half_p,
                    fx_sub(0, one_p),
                    half_p,
                    fx_add(FX_ONE, alpha),
                    fx_sub(0, two_cw),
                    fx_sub(FX_ONE, alpha),
                )
            },
            FilterType::Peaking => {
                let amp = fx_pow10(fx_div(gain_db, 40 * FX_ONE));
                (
                    fx_add(FX_ONE, fx_mul(alpha, amp)),
                    fx_sub(0, two_cw),
                    fx_sub(FX_ONE, fx_mul(alpha, amp)),
                    fx_add(FX_ONE, fx_div(alpha, amp)),
                    fx_sub(0, two_cw),
                    fx_sub(FX_ONE, fx_div(alpha, amp)),
                )
            },
        };
        self.coefficients = FilterCoefficients {
            b0: fx_div(b0, a0),
            b1: fx_div(b1, a0),
            b2: fx_div(b2, a0),
            a1: fx_div(a1, a0),
            a2: fx_div(a2, a0),
        };
        Ok(())
    }

    /// Configures from a host configuration object: the cutoff fraction is
    /// the configured frequency divided by the sampling rate.
    pub fn set_parameters(&mut self, config: &FilterConfig, sample_rate: usize) -> (r: Result<
        (),
        EngineError,
    >)
        requires
            1 <= sample_rate <= 1_000_000,
        ensures
            r is Ok <==> filter_params_valid(
                fx_div_spec(config.frequency as int, (sample_rate as int) * (FX_ONE as int)),
                config.q as int,
            ),
            r is Ok ==> final(self).coefficients == coefficients_spec(
                config.filter_type,
                fx_div_spec(config.frequency as int, (sample_rate as int) * (FX_ONE as int)),
                config.q as int,
                config.gain as int,
            ),
            r is Err ==> r == Err::<(), EngineError>(EngineError::InvalidParameter) && *final(self)
                == *old(self),
            final(self).z1 == old(self).z1,
            final(self).z2 == old(self).z2,
    {
        let cutoff_fraction = fx_div(config.frequency, (sample_rate as i64) * FX_ONE);
        self.configure(config.filter_type, cutoff_fraction, config.q, config.gain)
    }

    /// Applies one step of the difference equation and advances the state.
    pub fn process(&mut self, x: i64) -> (r: i64)
        ensures
            ({
                let step = biquad_step(old(self).coefficients, old(self).z1 as int, old(
                    self,
                ).z2 as int, x as int);
                r as int == step.0 && final(self).z1 as int == step.1 && final(self).z2 as int
                    == step.2
            }),
            final(self).coefficients == old(self).coefficients,
    {
        let c = self.coefficients;
        let out = fx_add(fx_mul(c.b0, x), self.z1);
        self.z1 = fx_add(fx_sub(fx_mul(c.b1, x), fx_mul(c.a1, out)), self.z2);
        self.z2 = fx_sub(fx_mul(c.b2, x), fx_mul(c.a2, out));
        out
    }

    /// Clears the state history without touching the coefficients.
    pub fn reset(&mut self)
        ensures
            final(self).coefficients == old(self).coefficients,
            final(self).z1 == 0,
            final(self).z2 == 0,
    {
        self.z1 = 0;
        self.z2 = 0;
    }
}

} // verus!
