use audio_engine::compressor::CompressorSettings;
use audio_engine::errors::EngineError;
use audio_engine::fixed::FX_ONE;
use audio_engine::processor::AudioProcessor;

fn fx(x: f64) -> i64 {
    (x * 4294967296.0).round() as i64
}

fn to_f(v: i64) -> f64 {
    v as f64 / 4294967296.0
}

fn sine(n: usize, freq: f64, amplitude: f64, sr: f64) -> Vec<i64> {
    (0..n)
        .map(|i| fx(amplitude * (2.0 * std::f64::consts::PI * freq * i as f64 / sr).sin()))
        .collect()
}

#[test]
fn unity_ratio_without_makeup_is_identity() {
    let p = AudioProcessor::new();
    let mut buffer = sine(2048, 440.0, 0.9, 44100.0);
    buffer.push(i64::MAX);
    buffer.push(i64::MIN);
    buffer.push(0);
    let original = buffer.clone();
    let settings = CompressorSettings {
        threshold: fx(-20.0),
        ratio: FX_ONE,
        attack: fx(0.01),
        release: fx(0.1),
        makeup_gain: 0,
    };
    assert_eq!(p.apply_compression(&mut buffer, &settings), Ok(()));
    assert_eq!(buffer, original);
}

#[test]
fn invalid_settings_are_rejected_unchanged() {
    let p = AudioProcessor::new();
    let mut buffer = sine(256, 440.0, 0.5, 44100.0);
    let original = buffer.clone();
    let bad_ratio = CompressorSettings {
        threshold: fx(-20.0),
        ratio: fx(0.5),
        attack: fx(0.01),
        release: fx(0.1),
        makeup_gain: 0,
    };
    assert_eq!(
        p.apply_compression(&mut buffer, &bad_ratio),
        Err(EngineError::InvalidParameter)
    );
    let bad_attack = CompressorSettings {
        threshold: fx(-20.0),
        ratio: fx(2.0),
        attack: 0,
        release: fx(0.1),
        makeup_gain: 0,
    };
    assert_eq!(
        p.apply_compression(&mut buffer, &bad_attack),
        Err(EngineError::InvalidParameter)
    );
    let bad_release = CompressorSettings {
        threshold: fx(-20.0),
        ratio: fx(2.0),
        attack: fx(0.01),
        release: fx(-0.1),
        makeup_gain: 0,
    };
    assert_eq!(
        p.apply_compression(&mut buffer, &bad_release),
        Err(EngineError::InvalidParameter)
    );
    assert_eq!(buffer, original);
}

#[test]
fn loud_signal_above_threshold_is_attenuated() {
    let p = AudioProcessor::new();
    let mut buffer = sine(4096, 440.0, 0.9, 44100.0);
    let peak_before = p.calculate_peak(&buffer);
    let settings = CompressorSettings {
        threshold: fx(-20.0),
        ratio: fx(4.0),
        attack: fx(0.001),
        release: fx(0.05),
        makeup_gain: 0,
    };
    assert_eq!(p.apply_compression(&mut buffer, &settings), Ok(()));
    // The attack transient passes before the envelope rises; judge the
    // reduction on the steady-state tail.
    let tail: Vec<i64> = buffer[2048..].to_vec();
    let peak_after = p.calculate_peak(&tail);
    assert!(
        to_f(peak_after) < to_f(peak_before) * 0.3,
        "expected strong gain reduction: {} vs {}",
        to_f(peak_before),
        to_f(peak_after)
    );
}

#[test]
fn quiet_signal_below_threshold_keeps_level() {
    let p = AudioProcessor::new();
    let mut buffer = sine(4096, 440.0, 0.001, 44100.0);
    let peak_before = p.calculate_peak(&buffer);
    let settings = CompressorSettings {
        threshold: fx(-20.0),
        ratio: fx(4.0),
        attack: fx(0.001),
        release: fx(0.05),
        makeup_gain: 0,
    };
    assert_eq!(p.apply_compression(&mut buffer, &settings), Ok(()));
    let peak_after = p.calculate_peak(&buffer);
    assert!(
        (to_f(peak_after) - to_f(peak_before)).abs() < 0.0002,
        "below threshold the level stays: {} vs {}",
        to_f(peak_before),
        to_f(peak_after)
    );
}

#[test]
fn makeup_gain_raises_unity_ratio_output() {
    let p = AudioProcessor::new();
    let mut buffer = sine(1024, 440.0, 0.1, 44100.0);
    let peak_before = p.calculate_peak(&buffer);
    let settings = CompressorSettings {
        threshold: fx(0.0),
        ratio: FX_ONE,
        attack: fx(0.01),
        release: fx(0.1),
        makeup_gain: fx(6.0205999),
    };
    assert_eq!(p.apply_compression(&mut buffer, &settings), Ok(()));
    let peak_after = p.calculate_peak(&buffer);
    let gain = to_f(peak_after) / to_f(peak_before);
    assert!(
        (gain - 2.0).abs() < 0.01,
        "six decibels of makeup roughly doubles the level, got factor {}",
        gain
    );
}
