//! The engine instance: configured sample rate, streaming state, and the
//! whole-buffer and per-frame operations.
//!
//! The processor owns one smoothed envelope, three fixed-length rolling
//! histories (pitch, spectral flux, root-mean-square level), and the
//! previous magnitude spectrum that spectral flux is measured against.
//! Host transforms and the pitch detector feed their results in as plain
//! values; every decision and every other computation is made here.

use crate::equalizer::{apply_equalizer_core, bands_valid, equalized_at, settings_are_unity};
use crate::equalizer::EqualizerSettings;
use crate::compressor::{apply_compression_core, compressed_at, compressor_params_valid};
use crate::compressor::{smoothing_coefficient_spec, CompressorSettings};
use crate::errors::EngineError;
use crate::features::{calculate_peak_core, calculate_rms_core, calculate_spectral_centroid_core};
use crate::features::calculate_zero_crossing_rate_core;
use crate::features::{crossing_count, magnitude_sum, peak_of, square_sum, weighted_sum};
use crate::fixed::{fx_div, fx_mul, fx_sat, fx_sat_i128, FX_ONE};
use crate::fixed::{fx_div_spec, fx_mul_spec};
use crate::history::{pushed_once, RollingHistory};
use crate::spectral::{bin_frequencies, bin_frequency_spec, dominant_bin, dominant_scan};
use crate::spectral::{bin_magnitude, flux_sum, is_magnitude, spectral_flux_core, ANALYSIS_FRAME};
use crate::spectral::ANALYSIS_MIN;
use crate::waveform::{bucket_peak, generate_waveform_core, interpolated_at};
use vstd::prelude::*;

verus! {

/// The default sample rate in hertz.
pub const DEFAULT_SAMPLE_RATE: usize = 44100;

/// The highest sample rate the Q32.32 grid supports without overflow.
pub const MAX_SAMPLE_RATE: usize = 1_000_000;

/// The pitch history capacity.
pub const PITCH_HISTORY_LEN: usize = 10;

/// The spectral-flux history capacity.
pub const FLUX_HISTORY_LEN: usize = 30;

/// The root-mean-square history capacity.
pub const RMS_HISTORY_LEN: usize = 30;

/// The peak magnitude below which volume normalization declines to scale,
/// about one ten-thousandth of unity.
pub const FX_NORMALIZE_FLOOR: i64 = 429497;

/// Whole-buffer analysis features.
pub struct AudioFeatures {
    pub rms: i64,
    pub peak: i64,
    pub pitch: Option<i64>,
    pub spectral_centroid: i64,
    pub zero_crossing_rate: i64,
}

/// One spectral analysis result: per-bin magnitudes, phases and center
/// frequencies, the dominant frequency, and the spectral flux against the
/// previous analyzed frame.
pub struct SpectrumAnalysisResult {
    pub magnitudes: Vec<i64>,
    pub phases: Vec<i64>,
    pub frequencies: Vec<i64>,
    pub dominant_frequency: i64,
    pub spectral_flux: i64,
}

/// A streaming-state snapshot: the smoothed envelope and the three rolling
/// histories, oldest first.
pub struct RealTimeProcessorState {
    pub envelope: i64,
    pub pitch_history: Vec<i64>,
    pub spectral_flux_history: Vec<i64>,
    pub rms_history: Vec<i64>,
}

/// The one-pole envelope smoother: nine tenths of the old envelope plus
/// one tenth of the new level, evaluated as `(9 * envelope + rms) / 10`
/// truncated toward zero and clamped to the `i64` range.
pub open spec fn envelope_smoothed(envelope: int, rms: int) -> int {
    let t = 9 * envelope + rms;
    fx_sat(
        if t >= 0 {
            t / 10
        } else {
            -((-t) / 10)
        },
    )
}

/// The audio engine instance.
pub struct AudioProcessor {
    pub sample_rate: usize,
    pub envelope: i64,
    pub pitch_history: RollingHistory,
    pub spectral_flux_history: RollingHistory,
    pub rms_history: RollingHistory,
    pub prev_spectrum: Option<Vec<i64>>,
}

/// The processor's structural invariant: a usable sample rate and the
/// three histories at their fixed capacities.
pub open spec fn processor_well_formed(p: AudioProcessor) -> bool {
    1 <= p.sample_rate <= MAX_SAMPLE_RATE && p.pitch_history.values@.len() == PITCH_HISTORY_LEN
        && p.spectral_flux_history.values@.len() == FLUX_HISTORY_LEN
        && p.rms_history.values@.len() == RMS_HISTORY_LEN
}

fn copy_values(v: &Vec<i64>) -> (r: Vec<i64>)
    ensures
        r@ == v@,
{
    let n = v.len();
    let mut r: Vec<i64> = Vec::new();
    let mut i: usize = 0;
    while i < n
        invariant
            0 <= i <= n,
            n == v@.len(),
            r@.len() == i,
            forall|j: int| 0 <= j < i ==> r@[j] == v@[j],
        decreases n - i,
    {
        r.push(v[i]);
        i = i + 1;
    }
    proof {
        assert(r@ =~= v@);
    }
    r
}

impl AudioProcessor {
    /// A fresh engine: default sample rate, zero envelope, zero-filled
    /// histories, and no previous spectrum.
    pub fn new() -> (r: AudioProcessor)
        ensures
            processor_well_formed(r),
            r.sample_rate == DEFAULT_SAMPLE_RATE,
            r.envelope == 0,
            forall|i: int| 0 <= i < PITCH_HISTORY_LEN ==> r.pitch_history.values@[i] == 0i64,
            forall|i: int|
                0 <= i < FLUX_HISTORY_LEN ==> r.spectral_flux_history.values@[i] == 0i64,
            forall|i: int| 0 <= i < RMS_HISTORY_LEN ==> r.rms_history.values@[i] == 0i64,
            r.prev_spectrum is None,
    {
        AudioProcessor {
            sample_rate: DEFAULT_SAMPLE_RATE,
            envelope: 0,
            pitch_history: RollingHistory::new(PITCH_HISTORY_LEN),
            spectral_flux_history: RollingHistory::new(FLUX_HISTORY_LEN),
            rms_history: RollingHistory::new(RMS_HISTORY_LEN),
            prev_spectrum: None,
        }
    }

    /// Sets the sample rate shared by all operations; rates outside the
    /// representable range are rejected and leave the engine unchanged.
    pub fn set_sample_rate(&mut self, sample_rate: usize) -> (r: Result<(), EngineError>)
        ensures
            r is Ok <==> 1 <= sample_rate <= MAX_SAMPLE_RATE,
            r is Ok ==> *final(self) == (AudioProcessor { sample_rate, ..*old(self) }),
            r is Err ==> r == Err::<(), EngineError>(EngineError::InvalidParameter) && *final(self)
                == *old(self),
    {
        if 1 <= sample_rate && sample_rate <= MAX_SAMPLE_RATE {
            self.sample_rate = sample_rate;
            Ok(())
        } else {
            Err(EngineError::InvalidParameter)
        }
    }

    /// Reduces a buffer to exactly `num_points` representative magnitudes;
    /// see the waveform module for the point policy.
    pub fn generate_waveform(&self, audio_data: &Vec<i64>, num_points: usize) -> (r: Vec<i64>)
        requires
            num_points >= 1,
        ensures
            r@.len() == num_points,
            audio_data@.len() == 0 ==> forall|i: int| 0 <= i < num_points ==> r@[i] == 0i64,
            audio_data@.len() >= 1 && (audio_data@.len() as int) / (num_points as int) == 0
                ==> forall|i: int|
                0 <= i < num_points ==> r@[i] as int == interpolated_at(
                    audio_data@,
                    num_points as int,
                    i,
                ),
            (audio_data@.len() as int) / (num_points as int) >= 1 ==> forall|i: int|
                0 <= i < num_points ==> r@[i] as int == bucket_peak(
                    audio_data@,
                    i * ((audio_data@.len() as int) / (num_points as int)),
                    ({
                        let end = (i + 1) * ((audio_data@.len() as int) / (num_points as int));
                        if end > audio_data@.len() {
                            audio_data@.len() as int
                        } else {
                            end
                        }
                    }),
                ),
    {
        generate_waveform_core(audio_data, num_points)
    }

    /// Applies the three-band equalizer in place; see the equalizer module
    /// for the band design and the unity fast path.
    pub fn apply_equalizer(&self, audio_data: &mut Vec<i64>, settings: &EqualizerSettings) -> (r:
        Result<(), EngineError>)
        requires
            processor_well_formed(*self),
        ensures
            settings_are_unity(*settings) ==> r is Ok && final(audio_data)@ == old(audio_data)@,
            !settings_are_unity(*settings) ==> (r is Ok <==> bands_valid(
                self.sample_rate as int,
                settings.mid as int,
            )),
            r is Err ==> r == Err::<(), EngineError>(EngineError::InvalidParameter) && final(
                audio_data)@ == old(audio_data)@,
            !settings_are_unity(*settings) && r is Ok ==> final(audio_data)@.len() == old(
                audio_data)@.len() && (forall|j: int|
                0 <= j < old(audio_data)@.len() ==> final(audio_data)@[j] as int == equalized_at(
                    old(audio_data)@,
                    *settings,
                    self.sample_rate as int,
                    j,
                )),
    {
        apply_equalizer_core(audio_data, settings, self.sample_rate)
    }

    /// Applies dynamic-range compression in place; see the compressor
    /// module for the envelope and gain law.
    pub fn apply_compression(&self, audio_data: &mut Vec<i64>, settings: &CompressorSettings) -> (
        r: Result<(), EngineError>)
        requires
            processor_well_formed(*self),
        ensures
            r is Ok <==> compressor_params_valid(*settings),
            r is Err ==> r == Err::<(), EngineError>(EngineError::InvalidParameter) && final(
                audio_data)@ == old(audio_data)@,
            r is Ok ==> final(audio_data)@.len() == old(audio_data)@.len() && (forall|j: int|
                0 <= j < old(audio_data)@.len() ==> final(audio_data)@[j] as int == compressed_at(
                    *settings,
                    smoothing_coefficient_spec(settings.attack as int, self.sample_rate as int),
                    smoothing_coefficient_spec(settings.release as int, self.sample_rate as int),
                    old(audio_data)@,
                    j,
                )),
    {
        apply_compression_core(audio_data, settings, self.sample_rate)
    }

    /// The root-mean-square level of a buffer.
    pub fn calculate_rms(&self, audio_data: &Vec<i64>) -> (r: i64)
        ensures
            audio_data@.len() == 0 ==> r == 0,
            audio_data@.len() >= 1 ==> ({
                let mean = square_sum(audio_data@, audio_data@.len() as int) / (
                audio_data@.len() as int);
                ((r as int) * (r as int) <= mean && mean < ((r as int) + 1) * ((r as int) + 1) && r
                    >= 0) || (r == i64::MAX && (i64::MAX as int) * (i64::MAX as int) <= mean)
            }),
    {
        calculate_rms_core(audio_data)
    }

    /// The peak magnitude of a buffer.
    pub fn calculate_peak(&self, audio_data: &Vec<i64>) -> (r: i64)
        ensures
            r as int == peak_of(audio_data@, audio_data@.len() as int),
    {
        calculate_peak_core(audio_data)
    }

    /// The zero-crossing rate of a buffer as a Q32.32 fraction.
    pub fn calculate_zero_crossing_rate(&self, audio_data: &Vec<i64>) -> (r: i64)
        ensures
            audio_data@.len() <= 1 ==> r == 0,
            audio_data@.len() >= 2 ==> r as int == (crossing_count(
                audio_data@,
                audio_data@.len() as int,
            ) * 0x1_0000_0000) / (audio_data@.len() - 1),
    {
        calculate_zero_crossing_rate_core(audio_data)
    }

    /// The spectral centroid of a magnitude sequence, as a Q32.32 bin
    /// index.
    pub fn calculate_spectral_centroid(&self, magnitudes: &Vec<i64>) -> (r: i64)
        requires
            magnitudes@.len() <= 65536,
            forall|i: int| 0 <= i < magnitudes@.len() ==> magnitudes@[i] >= 0,
        ensures
            magnitude_sum(magnitudes@, magnitudes@.len() as int) == 0 ==> r == 0,
            magnitude_sum(magnitudes@, magnitudes@.len() as int) > 0 ==> r as int == fx_sat(
                (weighted_sum(magnitudes@, magnitudes@.len() as int) * 0x1_0000_0000)
                    / magnitude_sum(magnitudes@, magnitudes@.len() as int),
            ),
    {
        calculate_spectral_centroid_core(magnitudes)
    }

    /// Scales the buffer so its peak reaches `target_level`, returning the
    /// gain applied; a buffer whose peak is below the normalization floor
    /// is left unchanged with a reported gain of one.
    pub fn normalize_volume(&self, audio_data: &mut Vec<i64>, target_level: i64) -> (r: i64)
        ensures
            peak_of(old(audio_data)@, old(audio_data)@.len() as int) < FX_NORMALIZE_FLOOR as int
                ==> r == FX_ONE && final(audio_data)@ == old(audio_data)@,
            peak_of(old(audio_data)@, old(audio_data)@.len() as int) >= FX_NORMALIZE_FLOOR as int
                ==> r as int == fx_div_spec(
                target_level as int,
                peak_of(old(audio_data)@, old(audio_data)@.len() as int),
            ) && final(audio_data)@.len() == old(audio_data)@.len() && (forall|j: int|
                0 <= j < old(audio_data)@.len() ==> final(audio_data)@[j] as int == fx_mul_spec(
                    old(audio_data)@[j] as int,
                    r as int,
                )),
    {
        let peak = calculate_peak_core(audio_data);
        if peak < FX_NORMALIZE_FLOOR {
            return FX_ONE;
        }
        let gain = fx_div(target_level, peak);
        let ghost input = audio_data@;
        let n = audio_data.len();
        let mut i: usize = 0;
        while i < n
            invariant
                0 <= i <= n,
                audio_data@.len() == n,
                n == input.len(),
                forall|j: int| i <= j < n ==> audio_data@[j] == input[j],
                forall|j: int|
                    0 <= j < i ==> audio_data@[j] as int == fx_mul_spec(input[j] as int, gain as int),
            decreases n - i,
        {
            let scaled = fx_mul(audio_data[i], gain);
            audio_data.set(i, scaled);
            i = i + 1;
        }
        gain
    }

    /// The sample indices of a playback loop given start and end positions
    /// as Q32.32 percentages, each clamped to the buffer.
    pub fn calculate_loop_points(&self, total_samples: u32, start_percent: i64, end_percent: i64)
        -> (r: Vec<u32>)
        ensures
            r@.len() == 2,
            r@[0] as int == loop_point_spec(total_samples as int, start_percent as int),
            r@[1] as int == loop_point_spec(total_samples as int, end_percent as int),
    {
        let start = loop_point(total_samples, start_percent);
        let end = loop_point(total_samples, end_percent);
        let mut r: Vec<u32> = Vec::new();
        r.push(start);
        r.push(end);
        proof {
            assert(r@[0] == start && r@[1] == end);
        }
        r
    }

    /// Analyzes one transformed frame: measures bin magnitudes, carries
    /// the given phases, attaches bin center frequencies, selects the
    /// dominant frequency, computes spectral flux against the previous
    /// frame (zero on the first analysis of a fresh engine), and stores
    /// the magnitudes as the new previous frame.
    pub fn spectrum_from_bins(&mut self, bins: &Vec<(i64, i64)>, phases: &Vec<i64>) -> (r:
        SpectrumAnalysisResult)
        requires
            processor_well_formed(*old(self)),
            bins@.len() == phases@.len(),
            bins@.len() <= ANALYSIS_FRAME,
        ensures
            r.magnitudes@.len() == bins@.len(),
            forall|k: int|
                0 <= k < bins@.len() ==> is_magnitude(
                    bins@[k].0 as int,
                    bins@[k].1 as int,
                    r.magnitudes@[k] as int,
                ) && r.magnitudes@[k] >= 0,
            r.phases@ == phases@,
            r.frequencies@.len() == bins@.len(),
            forall|i: int|
                0 <= i < bins@.len() ==> r.frequencies@[i] as int == bin_frequency_spec(
                    i,
                    old(self).sample_rate as int,
                    ANALYSIS_FRAME as int,
                ),
            bins@.len() >= 1 ==> r.dominant_frequency as int == bin_frequency_spec(
                dominant_scan(r.magnitudes@, r.magnitudes@.len() as int).0,
                old(self).sample_rate as int,
                ANALYSIS_FRAME as int,
            ),
            bins@.len() == 0 ==> r.dominant_frequency == 0,
            old(self).prev_spectrum is None ==> r.spectral_flux == 0,
            old(self).prev_spectrum matches Some(p) ==> r.spectral_flux as int == flux_sum(
                r.magnitudes@,
                p@,
                if r.magnitudes@.len() <= p@.len() {
                    r.magnitudes@.len() as int
                } else {
                    p@.len() as int
                },
            ),
            final(self).prev_spectrum matches Some(q) && q@ == r.magnitudes@,
            final(self).sample_rate == old(self).sample_rate,
            final(self).envelope == old(self).envelope,
            final(self).pitch_history == old(self).pitch_history,
            final(self).spectral_flux_history == old(self).spectral_flux_history,
            final(self).rms_history == old(self).rms_history,
            processor_well_formed(*final(self)),
    {
        let n = bins.len();
        let mut magnitudes: Vec<i64> = Vec::new();
        let mut k: usize = 0;
        while k < n
            invariant
                0 <= k <= n,
                n == bins@.len(),
                magnitudes@.len() == k,
                forall|j: int|
                    0 <= j < k ==> is_magnitude(
                        bins@[j].0 as int,
                        bins@[j].1 as int,
                        magnitudes@[j] as int,
                    ) && magnitudes@[j] >= 0,
            decreases n - k,
        {
            let (re, im) = bins[k];
            magnitudes.push(bin_magnitude(re, im));
            k = k + 1;
        }
        let spectral_flux = match &self.prev_spectrum {
            Some(prev) => spectral_flux_core(&magnitudes, prev),
            None => 0,
        };
        let frequencies = bin_frequencies(n, self.sample_rate, ANALYSIS_FRAME);
        let dominant_frequency = if n >= 1 {
            let idx = dominant_bin(&magnitudes);
            frequencies[idx]
        } else {
            0
        };
        let phases_copy = copy_values(phases);
        let mags_copy = copy_values(&magnitudes);
        self.prev_spectrum = Some(mags_copy);
        SpectrumAnalysisResult {
            magnitudes,
            phases: phases_copy,
            frequencies,
            dominant_frequency,
            spectral_flux,
        }
    }

    /// Folds one frame's measured level, detected pitch and spectral flux
    /// into the streaming state and returns the updated snapshot. The
    /// envelope is smoothed by one pole; the level always enters its
    /// history; pitch and flux enter theirs only when present.
    pub fn record_frame(&mut self, rms: i64, pitch: Option<i64>, flux: Option<i64>) -> (r:
        RealTimeProcessorState)
        requires
            processor_well_formed(*old(self)),
        ensures
            processor_well_formed(*final(self)),
            final(self).envelope as int == envelope_smoothed(
                old(self).envelope as int,
                rms as int,
            ),
            final(self).rms_history.values@ == pushed_once(old(self).rms_history.values@, rms),
            pitch matches Some(p) ==> final(self).pitch_history.values@ == pushed_once(
                old(self).pitch_history.values@,
                p,
            ),
            pitch is None ==> final(self).pitch_history == old(self).pitch_history,
            flux matches Some(f) ==> final(self).spectral_flux_history.values@ == pushed_once(
                old(self).spectral_flux_history.values@,
                f,
            ),
            flux is None ==> final(self).spectral_flux_history == old(self).spectral_flux_history,
            final(self).sample_rate == old(self).sample_rate,
            final(self).prev_spectrum == old(self).prev_spectrum,
            r.envelope == final(self).envelope,
            r.pitch_history@ == final(self).pitch_history.values@,
            r.spectral_flux_history@ == final(self).spectral_flux_history.values@,
            r.rms_history@ == final(self).rms_history.values@,
    {
        let t: i128 = 9 * (self.envelope as i128) + (rms as i128);
        let mag: u128 = if t < 0 {
            (-t) as u128
        } else {
            t as u128
        };
        let q = mag / 10;
        let signed: i128 = if t < 0 {
            -(q as i128)
        } else {
            q as i128
        };
        self.envelope = fx_sat_i128(signed);
        self.rms_history.push(rms);
        match pitch {
            Some(p) => self.pitch_history.push(p),
            None => {},
        }
        match flux {
            Some(f) => self.spectral_flux_history.push(f),
            None => {},
        }
        RealTimeProcessorState {
            envelope: self.envelope,
            pitch_history: copy_values(&self.pitch_history.values),
            spectral_flux_history: copy_values(&self.spectral_flux_history.values),
            rms_history: copy_values(&self.rms_history.values),
        }
    }

    /// Assembles the whole-buffer feature record: the level, peak and
    /// zero-crossing rate of the buffer, the pitch the host's detector
    /// reported, and the spectral centroid of the host-transformed
    /// magnitude spectrum.
    pub fn analyze_audio(
        &self,
        audio_data: &Vec<i64>,
        pitch: Option<i64>,
        magnitudes: &Vec<i64>,
    ) -> (r: AudioFeatures)
        requires
            magnitudes@.len() <= 65536,
            forall|i: int| 0 <= i < magnitudes@.len() ==> magnitudes@[i] >= 0,
        ensures
            r.pitch == pitch,
            r.peak as int == peak_of(audio_data@, audio_data@.len() as int),
            audio_data@.len() == 0 ==> r.rms == 0,
            audio_data@.len() >= 1 ==> ({
                let mean = square_sum(audio_data@, audio_data@.len() as int) / (
                audio_data@.len() as int);
                ((r.rms as int) * (r.rms as int) <= mean && mean < ((r.rms as int) + 1) * ((
                r.rms as int) + 1) && r.rms >= 0) || (r.rms == i64::MAX && (i64::MAX as int) * (
                i64::MAX as int) <= mean)
            }),
            audio_data@.len() <= 1 ==> r.zero_crossing_rate == 0,
            audio_data@.len() >= 2 ==> r.zero_crossing_rate as int == (crossing_count(
                audio_data@,
                audio_data@.len() as int,
            ) * 0x1_0000_0000) / (audio_data@.len() - 1),
            magnitude_sum(magnitudes@, magnitudes@.len() as int) == 0 ==> r.spectral_centroid
                == 0,
            magnitude_sum(magnitudes@, magnitudes@.len() as int) > 0 ==> r.spectral_centroid
                as int == fx_sat(
                (weighted_sum(magnitudes@, magnitudes@.len() as int) * 0x1_0000_0000)
                    / magnitude_sum(magnitudes@, magnitudes@.len() as int),
            ),
    {
        AudioFeatures {
            rms: calculate_rms_core(audio_data),
            peak: calculate_peak_core(audio_data),
            pitch,
            spectral_centroid: calculate_spectral_centroid_core(magnitudes),
            zero_crossing_rate: calculate_zero_crossing_rate_core(audio_data),
        }
    }

    /// A snapshot of the current streaming state.
    pub fn get_processor_state(&self) -> (r: RealTimeProcessorState)
        ensures
            r.envelope == self.envelope,
            r.pitch_history@ == self.pitch_history.values@,
            r.spectral_flux_history@ == self.spectral_flux_history.values@,
            r.rms_history@ == self.rms_history.values@,
    {
        RealTimeProcessorState {
            envelope: self.envelope,
            pitch_history: copy_values(&self.pitch_history.values),
            spectral_flux_history: copy_values(&self.spectral_flux_history.values),
            rms_history: copy_values(&self.rms_history.values),
        }
    }
}

/// Checks that a buffer is long enough for spectral feature analysis.
pub fn analysis_check(len: usize) -> (r: Result<(), EngineError>)
    ensures
        r is Ok <==> len >= ANALYSIS_MIN,
        r is Err ==> r == Err::<(), EngineError>(EngineError::InsufficientSamples),
{
    if len < ANALYSIS_MIN {
        Err(EngineError::InsufficientSamples)
    } else {
        Ok(())
    }
}

/// The start of the feature-analysis window: the last full frame of the
/// buffer, or zero for a shorter buffer.
pub fn analysis_start(len: usize) -> (r: usize)
    ensures
        len >= ANALYSIS_FRAME ==> r == len - ANALYSIS_FRAME,
        len < ANALYSIS_FRAME ==> r == 0,
{
    if len >= ANALYSIS_FRAME {
        len - ANALYSIS_FRAME
    } else {
        0
    }
}

/// A loop point: the percentage of the total sample count, truncated,
/// clamped to the `u32` range from below at zero and above at its
/// maximum.
pub open spec fn loop_point_spec(total: int, percent: int) -> int {
    if percent <= 0 {
        0
    } else {
        let p = (total * percent) / (100 * FX_ONE as int);
        if p > u32::MAX as int {
            u32::MAX as int
        } else {
            p
        }
    }
}

fn loop_point(total: u32, percent: i64) -> (r: u32)
    ensures
        r as int == loop_point_spec(total as int, percent as int),
{
    if percent <= 0 {
        return 0;
    }
    proof {
        assert(0 <= (total as int) * (percent as int) && (total as int) * (percent as int) <= (
        0xffff_ffff as int) * (0x7fff_ffff_ffff_ffff as int)) by (nonlinear_arith)
            requires
                0 <= total as int <= 0xffff_ffff,
                0 < percent as int <= 0x7fff_ffff_ffff_ffff,
        ;
    }
    let p = ((total as u128) * (percent as u128)) / (100u128 * (FX_ONE as u128));
    if p > u32::MAX as u128 {
        u32::MAX
    } else {
        p as u32
    }
}

} // verus!
