use audio_engine::fixed::FX_ONE;
use audio_engine::pitch::{pitch_analysis_window, PITCH_WINDOW};
use audio_engine::processor::AudioProcessor;
use pitch_detection::detector::mcleod::McLeodDetector;
use pitch_detection::detector::PitchDetector;

fn fx(x: f64) -> i64 {
    (x * 4294967296.0).round() as i64
}

fn to_f(v: i64) -> f64 {
    v as f64 / 4294967296.0
}

fn sine(n: usize, freq: f64, amplitude: f64, sr: f64) -> Vec<i64> {
    (0..n)
        .map(|i| fx(amplitude * (2.0 * std::f64::consts::PI * freq * i as f64 / sr).sin()))
        .collect()
}

/// The host wiring of pitch detection: the engine picks the window, the
/// detector runs in floating point.
fn detect(buffer: &Vec<i64>, sample_rate: usize) -> Option<f64> {
    let (start, len) = pitch_analysis_window(buffer.len())?;
    let signal: Vec<f32> = buffer[start..start + len].iter().map(|v| to_f(*v) as f32).collect();
    let mut detector = McLeodDetector::new(PITCH_WINDOW, PITCH_WINDOW / 2);
    detector
        .get_pitch(&signal, sample_rate, 0.2, 0.7)
        .map(|p| p.frequency as f64)
}

#[test]
fn short_buffer_gives_no_pitch() {
    assert!(pitch_analysis_window(0).is_none());
    assert!(pitch_analysis_window(1023).is_none());
    let short = sine(1023, 440.0, 0.9, 44100.0);
    assert!(detect(&short, 44100).is_none());
}

#[test]
fn window_is_centered() {
    assert_eq!(pitch_analysis_window(1024), Some((0, 1024)));
    assert_eq!(pitch_analysis_window(2048), Some((512, 1024)));
    assert_eq!(pitch_analysis_window(3000), Some((988, 1024)));
}

#[test]
fn pure_tone_is_detected_within_one_percent() {
    let buffer = sine(2048, 440.0, 0.8, 44100.0);
    let freq = detect(&buffer, 44100).expect("a clear tone must yield a pitch");
    assert!(
        (freq - 440.0).abs() < 4.4,
        "detected {} instead of 440",
        freq
    );
}

#[test]
fn silence_gives_no_pitch() {
    let silent = vec![0i64; 2048];
    assert!(detect(&silent, 44100).is_none());
}

#[test]
fn rms_of_constant_buffer_is_exact() {
    let p = AudioProcessor::new();
    let buffer = vec![fx(0.5); 1000];
    assert_eq!(p.calculate_rms(&buffer), fx(0.5));
    let empty: Vec<i64> = Vec::new();
    assert_eq!(p.calculate_rms(&empty), 0);
}

#[test]
fn peak_is_largest_magnitude() {
    let p = AudioProcessor::new();
    let buffer = vec![fx(0.1), fx(-0.7), fx(0.3)];
    assert_eq!(p.calculate_peak(&buffer), fx(0.7));
    let empty: Vec<i64> = Vec::new();
    assert_eq!(p.calculate_peak(&empty), 0);
}

#[test]
fn zero_crossing_rate_of_alternation_is_unity() {
    let p = AudioProcessor::new();
    let buffer: Vec<i64> = (0..100).map(|i| if i % 2 == 0 { fx(0.5) } else { fx(-0.5) }).collect();
    assert_eq!(p.calculate_zero_crossing_rate(&buffer), FX_ONE);
    let constant = vec![fx(0.5); 100];
    assert_eq!(p.calculate_zero_crossing_rate(&constant), 0);
    let single = vec![fx(0.5)];
    assert_eq!(p.calculate_zero_crossing_rate(&single), 0);
}

#[test]
fn centroid_weighs_bins_by_magnitude() {
    let p = AudioProcessor::new();
    let single_high = vec![0, FX_ONE];
    assert_eq!(p.calculate_spectral_centroid(&single_high), FX_ONE);
    let balanced = vec![FX_ONE, 0, FX_ONE];
    assert_eq!(p.calculate_spectral_centroid(&balanced), FX_ONE);
    let empty: Vec<i64> = Vec::new();
    assert_eq!(p.calculate_spectral_centroid(&empty), 0);
}
