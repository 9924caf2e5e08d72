//! Three-band parametric equalization.
//!
//! A bass low-pass, a mid peaking and a treble high-pass filter run in
//! parallel over the buffer; each band's output is scaled by its gain, the
//! three are summed and the sum divided by three to keep the overall level
//! comparable. Gains within a small tolerance of unity short-circuit to an
//! exact pass-through.

use crate::biquad::{biquad_state_after, biquad_step, coefficients_spec, filter_params_valid};
use crate::biquad::{BiquadFilter, FilterCoefficients, FilterType};
use crate::errors::EngineError;
use crate::fixed::{fx_add, fx_div, fx_mul, fx_sub, FX_ONE};
use crate::fixed::{fx_add_spec, fx_div_spec, fx_mul_spec, fx_sub_spec};
use vstd::math::abs;
use vstd::prelude::*;

verus! {

/// Three independent linear band gains; `FX_ONE` is unity.
#[derive(Clone, Copy, Debug, PartialEq, Eq, Structural)]
pub struct EqualizerSettings {
    pub bass: i64,
    pub mid: i64,
    pub treble: i64,
}

/// One hundredth of unity, rounded down: the pass-through tolerance.
pub const FX_UNITY_TOLERANCE: i64 = 42949672;

/// The bass band's cutoff frequency in hertz.
pub const BASS_CUTOFF_HZ: i64 = 200;

/// The mid band's center frequency in hertz.
pub const MID_CENTER_HZ: i64 = 1000;

/// The treble band's cutoff frequency in hertz.
pub const TREBLE_CUTOFF_HZ: i64 = 4000;

/// The bass and treble quality factor, 0.707 in Q32.32, rounded down.
pub const FX_Q_BUTTERWORTH: i64 = 3036541878;

/// Whether a linear gain lies within the pass-through tolerance of unity.
pub open spec fn gain_is_unity(g: int) -> bool {
    abs(g - FX_ONE as int) < FX_UNITY_TOLERANCE as int
}

/// Whether all three band gains are within the pass-through tolerance.
pub open spec fn settings_are_unity(s: EqualizerSettings) -> bool {
    gain_is_unity(s.bass as int) && gain_is_unity(s.mid as int) && gain_is_unity(s.treble as int)
}

/// A band frequency in hertz as a fraction of the sampling rate.
pub open spec fn band_fraction_spec(hz: int, sample_rate: int) -> int {
    fx_div_spec(hz * FX_ONE as int, sample_rate * FX_ONE as int)
}

/// The coefficient set of the bass low-pass band.
pub open spec fn bass_coefficients(sample_rate: int) -> FilterCoefficients {
    coefficients_spec(
        FilterType::LowPass,
        band_fraction_spec(BASS_CUTOFF_HZ as int, sample_rate),
        FX_Q_BUTTERWORTH as int,
        0,
    )
}

/// The coefficient set of the mid peaking band: its decibel gain is twelve
/// times the band gain's offset from unity.
pub open spec fn mid_coefficients(sample_rate: int, mid_gain: int) -> FilterCoefficients {
    coefficients_spec(
        FilterType::Peaking,
        band_fraction_spec(MID_CENTER_HZ as int, sample_rate),
        FX_ONE as int,
        fx_mul_spec(mid_gain - FX_ONE as int, 12 * FX_ONE as int),
    )
}

/// The coefficient set of the treble high-pass band.
pub open spec fn treble_coefficients(sample_rate: int) -> FilterCoefficients {
    coefficients_spec(
        FilterType::HighPass,
        band_fraction_spec(TREBLE_CUTOFF_HZ as int, sample_rate),
        FX_Q_BUTTERWORTH as int,
        0,
    )
}

/// Whether all three band designs are valid at this sampling rate.
pub open spec fn bands_valid(sample_rate: int, mid_gain: int) -> bool {
    filter_params_valid(
        band_fraction_spec(BASS_CUTOFF_HZ as int, sample_rate),
        FX_Q_BUTTERWORTH as int,
    ) && filter_params_valid(
        band_fraction_spec(MID_CENTER_HZ as int, sample_rate),
        FX_ONE as int,
    ) && filter_params_valid(
        band_fraction_spec(TREBLE_CUTOFF_HZ as int, sample_rate),
        FX_Q_BUTTERWORTH as int,
    )
}

/// One band's output at position `j` of the input, starting from cleared
/// filter state.
pub open spec fn band_out_at(c: FilterCoefficients, input: Seq<i64>, j: int) -> int {
    let st = biquad_state_after(c, 0, 0, input.take(j));
    biquad_step(c, st.0, st.1, input[j] as int).0
}

/// The equalized sample at position `j`: the gain-scaled parallel sum of
/// the three bands, divided by three.
pub open spec fn equalized_at(
    input: Seq<i64>,
    s: EqualizerSettings,
    sample_rate: int,
    j: int,
) -> int {
    let bass = fx_mul_spec(band_out_at(bass_coefficients(sample_rate), input, j), s.bass as int);
    let mid = band_out_at(mid_coefficients(sample_rate, s.mid as int), input, j);
    let treble = fx_mul_spec(
        band_out_at(treble_coefficients(sample_rate), input, j),
        s.treble as int,
    );
    fx_div_spec(fx_add_spec(fx_add_spec(bass, mid), treble), 3 * FX_ONE as int)
}

/// Whether a gain is within the pass-through tolerance of unity.
pub fn is_unity_gain(g: i64) -> (r: bool)
    ensures
        r == gain_is_unity(g as int),
{
    let d = fx_sub(g, FX_ONE);
    -FX_UNITY_TOLERANCE < d && d < FX_UNITY_TOLERANCE
}

/// Applies the three-band equalizer to the buffer in place.
///
/// Settings within the pass-through tolerance of unity leave the buffer
/// exactly unchanged. Otherwise every sample is replaced by the parallel
/// band sum; a sampling rate too low for the band frequencies is rejected
/// with the buffer unchanged.
pub fn apply_equalizer_core(
    buffer: &mut Vec<i64>,
    settings: &EqualizerSettings,
    sample_rate: usize,
) -> (r: Result<(), EngineError>)
    requires
        1 <= sample_rate <= 1_000_000,
    ensures
        settings_are_unity(*settings) ==> r is Ok && final(buffer)@ == old(buffer)@,
        !settings_are_unity(*settings) ==> (r is Ok <==> bands_valid(
            sample_rate as int,
            settings.mid as int,
        )),
        r is Err ==> r == Err::<(), EngineError>(EngineError::InvalidParameter) && final(buffer)@
            == old(buffer)@,
        !settings_are_unity(*settings) && r is Ok ==> final(buffer)@.len() == old(buffer)@.len()
            && (forall|j: int|
            0 <= j < old(buffer)@.len() ==> final(buffer)@[j] as int == equalized_at(
                old(buffer)@,
                *settings,
                sample_rate as int,
                j,
            )),
{
    if is_unity_gain(settings.bass) && is_unity_gain(settings.mid) && is_unity_gain(
        settings.treble,
    ) {
        return Ok(());
    }
    let sr_fx = (sample_rate as i64) * FX_ONE;
    let mut bass_filter = BiquadFilter::new();
    let mut mid_filter = BiquadFilter::new();
    let mut treble_filter = BiquadFilter::new();
    let mid_gain_db = fx_mul(fx_sub(settings.mid, FX_ONE), 12 * FX_ONE);
    let ok_bass = bass_filter.configure(
        FilterType::LowPass,
        fx_div(BASS_CUTOFF_HZ * FX_ONE, sr_fx),
        FX_Q_BUTTERWORTH,
        0,
    );
    let ok_mid = mid_filter.configure(
        FilterType::Peaking,
        fx_div(MID_CENTER_HZ * FX_ONE, sr_fx),
        FX_ONE,
        mid_gain_db,
    );
    let ok_treble = treble_filter.configure(
        FilterType::HighPass,
        fx_div(TREBLE_CUTOFF_HZ * FX_ONE, sr_fx),
        FX_Q_BUTTERWORTH,
        0,
    );
    if ok_bass.is_err() || ok_mid.is_err() || ok_treble.is_err() {
        return Err(EngineError::InvalidParameter);
    }
    let ghost input = buffer@;
    let ghost cb = bass_coefficients(sample_rate as int);
    let ghost cm = mid_coefficients(sample_rate as int, settings.mid as int);
    let ghost ct = treble_coefficients(sample_rate as int);
    let n = buffer.len();
    let mut i: usize = 0;
    while i < n
        invariant
            n == input.len(),
            buffer@.len() == n,
            0 <= i <= n,
            cb == bass_coefficients(sample_rate as int),
            cm == mid_coefficients(sample_rate as int, settings.mid as int),
            ct == treble_coefficients(sample_rate as int),
            bass_filter.coefficients == cb,
            mid_filter.coefficients == cm,
            treble_filter.coefficients == ct,
            (bass_filter.z1 as int, bass_filter.z2 as int) == biquad_state_after(
                cb,
                0,
                0,
                input.take(i as int),
            ),
            (mid_filter.z1 as int, mid_filter.z2 as int) == biquad_state_after(
                cm,
                0,
                0,
                input.take(i as int),
            ),
            (treble_filter.z1 as int, treble_filter.z2 as int) == biquad_state_after(
                ct,
                0,
                0,
                input.take(i as int),
            ),
            forall|j: int| i <= j < n ==> buffer@[j] == input[j],
            forall|j: int|
                0 <= j < i ==> buffer@[j] as int == equalized_at(
                    input,
                    *settings,
                    sample_rate as int,
                    j,
                ),
        decreases n - i,
    {
        let x = buffer[i];
        let bass_out = bass_filter.process(x);
        let mid_out = mid_filter.process(x);
        let treble_out = treble_filter.process(x);
        let bass_scaled = fx_mul(bass_out, settings.bass);
        let treble_scaled = fx_mul(treble_out, settings.treble);
        let summed = fx_add(fx_add(bass_scaled, mid_out), treble_scaled);
        let mixed = fx_div(summed, 3 * FX_ONE);
        proof {
            assert(input.take(i + 1).drop_last() =~= input.take(i as int));
            assert(input.take(i + 1).last() == input[i as int]);
            let t = i as int;
            assert(bass_out as int == band_out_at(cb, input, t));
            assert(mid_out as int == band_out_at(cm, input, t));
            assert(treble_out as int == band_out_at(ct, input, t));
            assert(bass_scaled as int == fx_mul_spec(band_out_at(cb, input, t), settings.bass as int));
            assert(treble_scaled as int == fx_mul_spec(
                band_out_at(ct, input, t),
                settings.treble as int,
            ));
            assert(summed as int == fx_add_spec(
                fx_add_spec(bass_scaled as int, mid_out as int),
                treble_scaled as int,
            ));
            assert(mixed as int == fx_div_spec(summed as int, 3 * FX_ONE as int));
            assert(mixed as int == equalized_at(input, *settings, sample_rate as int, t));
        }
        buffer.set(i, mixed);
        i = i + 1;
    }
    Ok(())
}

} // verus!
