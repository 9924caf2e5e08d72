use audio_engine::biquad::{BiquadFilter, FilterConfig, FilterType};
use audio_engine::equalizer::EqualizerSettings;
use audio_engine::errors::EngineError;
use audio_engine::fixed::FX_ONE;
use audio_engine::processor::AudioProcessor;

fn fx(x: f64) -> i64 {
    (x * 4294967296.0).round() as i64
}

fn to_f(v: i64) -> f64 {
    v as f64 / 4294967296.0
}

fn cookbook(kind: FilterType, cutoff: f64, q: f64, gain_db: f64) -> [f64; 5] {
    let w = 2.0 * std::f64::consts::PI * cutoff;
    let alpha = w.sin() / (2.0 * q);
    let cw = w.cos();
    let (b0, b1, b2, a0, a1, a2) = match kind {
        FilterType::LowPass => (
            (1.0 - cw) / 2.0,
            1.0 - cw,
            (1.0 - cw) / 2.0,
            1.0 + alpha,
            -2.0 * cw,
            1.0 - alpha,
        ),
        FilterType::HighPass => (
            (1.0 + cw) / 2.0,
            -(1.0 + cw),
            (1.0 + cw) / 2.0,
            1.0 + alpha,
            -2.0 * cw,
            1.0 - alpha,
        ),
        FilterType::Peaking => {
            let a = 10.0f64.powf(gain_db / 40.0);
            (
                1.0 + alpha * a,
                -2.0 * cw,
                1.0 - alpha * a,
                1.0 + alpha / a,
                -2.0 * cw,
                1.0 - alpha / a,
            )
        },
    };
    [b0 / a0, b1 / a0, b2 / a0, a1 / a0, a2 / a0]
}

fn check_coefficients(kind: FilterType, cutoff: f64, q: f64, gain_db: f64) {
    let mut f = BiquadFilter::new();
    assert_eq!(f.configure(kind, fx(cutoff), fx(q), fx(gain_db)), Ok(()));
    let want = cookbook(kind, cutoff, q, gain_db);
    let got = [
        to_f(f.coefficients.b0),
        to_f(f.coefficients.b1),
        to_f(f.coefficients.b2),
        to_f(f.coefficients.a1),
        to_f(f.coefficients.a2),
    ];
    for k in 0..5 {
        assert!(
            (got[k] - want[k]).abs() < 1e-4,
            "coefficient {} for {:?}: got {}, want {}",
            k,
            kind,
            got[k],
            want[k]
        );
    }
}

#[test]
fn coefficients_match_cookbook_low_pass() {
    check_coefficients(FilterType::LowPass, 0.0045, 0.707, 0.0);
    check_coefficients(FilterType::LowPass, 0.1, 1.0, 0.0);
    check_coefficients(FilterType::LowPass, 0.45, 0.707, 0.0);
}

#[test]
fn coefficients_match_cookbook_high_pass() {
    check_coefficients(FilterType::HighPass, 0.09, 0.707, 0.0);
    check_coefficients(FilterType::HighPass, 0.25, 2.0, 0.0);
}

#[test]
fn coefficients_match_cookbook_peaking() {
    check_coefficients(FilterType::Peaking, 0.0227, 1.0, 6.0);
    check_coefficients(FilterType::Peaking, 0.0227, 1.0, -9.0);
}

#[test]
fn degenerate_parameters_are_rejected() {
    let mut f = BiquadFilter::new();
    let before = f.coefficients;
    assert_eq!(
        f.configure(FilterType::LowPass, fx(0.1), 0, 0),
        Err(EngineError::InvalidParameter)
    );
    assert_eq!(
        f.configure(FilterType::LowPass, 0, fx(0.7), 0),
        Err(EngineError::InvalidParameter)
    );
    assert_eq!(
        f.configure(FilterType::LowPass, fx(0.5), fx(0.7), 0),
        Err(EngineError::InvalidParameter)
    );
    assert_eq!(f.coefficients, before);
}

#[test]
fn pass_through_filter_is_identity() {
    let mut f = BiquadFilter::new();
    assert_eq!(f.process(fx(0.3)), fx(0.3));
    assert_eq!(f.process(fx(-0.8)), fx(-0.8));
    f.reset();
    assert_eq!(f.z1, 0);
    assert_eq!(f.z2, 0);
}

#[test]
fn filter_config_carries_fields() {
    let c = FilterConfig::new(FilterType::HighPass, fx(5000.0), fx(0.7), fx(1.0));
    assert_eq!(c.filter_type, FilterType::HighPass);
    assert_eq!(c.frequency, fx(5000.0));
    assert_eq!(c.q, fx(0.7));
    assert_eq!(c.gain, fx(1.0));
}

#[test]
fn equalizer_unity_is_exact_passthrough() {
    let p = AudioProcessor::new();
    let mut buffer: Vec<i64> = (0..256).map(|i| fx(((i * 37) % 101) as f64 / 101.0 - 0.5)).collect();
    let original = buffer.clone();
    let settings = EqualizerSettings { bass: FX_ONE, mid: FX_ONE, treble: FX_ONE };
    assert_eq!(p.apply_equalizer(&mut buffer, &settings), Ok(()));
    assert_eq!(buffer, original);
    // Still inside the tolerance band around unity.
    let settings = EqualizerSettings { bass: fx(1.005), mid: fx(0.995), treble: FX_ONE };
    assert_eq!(p.apply_equalizer(&mut buffer, &settings), Ok(()));
    assert_eq!(buffer, original);
}

#[test]
fn equalizer_rejects_too_low_sample_rate() {
    let mut p = AudioProcessor::new();
    assert_eq!(p.set_sample_rate(8000), Ok(()));
    let mut buffer: Vec<i64> = vec![fx(0.1); 64];
    let original = buffer.clone();
    // The treble band's cutoff fraction reaches one half at 8 kHz.
    let settings = EqualizerSettings { bass: fx(2.0), mid: fx(2.0), treble: fx(2.0) };
    assert_eq!(
        p.apply_equalizer(&mut buffer, &settings),
        Err(EngineError::InvalidParameter)
    );
    assert_eq!(buffer, original);
}

#[test]
fn equalizer_gain_changes_peak_not_zero_crossings() {
    let p = AudioProcessor::new();
    let n = 8192usize;
    let sr = 44100.0f64;
    let mut buffer: Vec<i64> = (0..n)
        .map(|i| fx(0.5 * (2.0 * std::f64::consts::PI * 440.0 * i as f64 / sr).sin()))
        .collect();
    let zcr_before = p.calculate_zero_crossing_rate(&buffer);
    let peak_before = p.calculate_peak(&buffer);
    let settings = EqualizerSettings { bass: fx(2.0), mid: fx(2.0), treble: fx(2.0) };
    assert_eq!(p.apply_equalizer(&mut buffer, &settings), Ok(()));
    let zcr_after = p.calculate_zero_crossing_rate(&buffer);
    let peak_after = p.calculate_peak(&buffer);
    assert!(
        (to_f(peak_after) - to_f(peak_before)).abs() > 0.01,
        "peak should change: {} vs {}",
        to_f(peak_before),
        to_f(peak_after)
    );
    assert!(
        (to_f(zcr_after) - to_f(zcr_before)).abs() < 0.005,
        "zero-crossing rate should be preserved: {} vs {}",
        to_f(zcr_before),
        to_f(zcr_after)
    );
}

#[test]
fn set_parameters_uses_frequency_over_sample_rate() {
    let mut direct = BiquadFilter::new();
    let mut via_config = BiquadFilter::new();
    let config = FilterConfig::new(FilterType::LowPass, fx(4410.0), fx(0.707), 0);
    assert_eq!(via_config.set_parameters(&config, 44100), Ok(()));
    // One tenth of the sampling rate, on the engine's truncating grid.
    let fraction = (((fx(4410.0) as u128) << 32) / ((44100u128) << 32)) as i64;
    assert_eq!(direct.configure(FilterType::LowPass, fraction, fx(0.707), 0), Ok(()));
    assert_eq!(via_config.coefficients, direct.coefficients);
    // A frequency at half the sampling rate is out of design range.
    let bad = FilterConfig::new(FilterType::LowPass, fx(22050.0), fx(0.707), 0);
    assert_eq!(
        via_config.set_parameters(&bad, 44100),
        Err(EngineError::InvalidParameter)
    );
}
