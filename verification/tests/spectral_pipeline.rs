use audio_engine::errors::EngineError;
use audio_engine::processor::{analysis_check, analysis_start, AudioProcessor};
use audio_engine::spectral::{
    bin_magnitude, denoise_check, denoise_spectrum, hann_window, overlap_add, window_frame,
    ANALYSIS_FRAME, DENOISE_FRAME, DENOISE_HOP,
};
use realfft::RealFftPlanner;

fn fx(x: f64) -> i64 {
    (x * 4294967296.0).round() as i64
}

fn to_f(v: i64) -> f64 {
    v as f64 / 4294967296.0
}

fn sine(n: usize, freq: f64, amplitude: f64, sr: f64) -> Vec<i64> {
    (0..n)
        .map(|i| fx(amplitude * (2.0 * std::f64::consts::PI * freq * i as f64 / sr).sin()))
        .collect()
}

/// The host wiring of the denoiser: the engine windows each frame, the
/// transform runs in floating point, the engine subtracts and
/// overlap-adds.
fn denoise(buffer: &mut Vec<i64>, threshold: i64) -> Result<(), EngineError> {
    denoise_check(buffer.len())?;
    let mut planner = RealFftPlanner::<f32>::new();
    let forward = planner.plan_fft_forward(DENOISE_FRAME);
    let inverse = planner.plan_fft_inverse(DENOISE_FRAME);
    let window = hann_window(DENOISE_FRAME);
    let mut out: Vec<i64> = vec![0; buffer.len()];
    let mut start = 0usize;
    while start < buffer.len() - DENOISE_FRAME {
        let frame = window_frame(buffer, &window, start);
        let mut time: Vec<f32> = frame.iter().map(|v| to_f(*v) as f32).collect();
        let mut spectrum = forward.make_output_vec();
        forward
            .process(&mut time, &mut spectrum)
            .map_err(|_| EngineError::TransformFailure)?;
        let mut bins: Vec<(i64, i64)> =
            spectrum.iter().map(|c| (fx(c.re as f64), fx(c.im as f64))).collect();
        let _mags = denoise_spectrum(&mut bins, threshold);
        for (k, c) in spectrum.iter_mut().enumerate() {
            c.re = to_f(bins[k].0) as f32;
            c.im = to_f(bins[k].1) as f32;
        }
        let mut restored: Vec<f32> = vec![0.0; DENOISE_FRAME];
        inverse
            .process(&mut spectrum, &mut restored)
            .map_err(|_| EngineError::TransformFailure)?;
        let restored_fx: Vec<i64> = restored.iter().map(|v| fx(*v as f64)).collect();
        overlap_add(&mut out, &restored_fx, &window, start);
        start += DENOISE_HOP;
    }
    for i in 0..buffer.len() {
        buffer[i] = out[i];
    }
    Ok(())
}

#[test]
fn denoise_needs_a_full_frame() {
    let mut short = vec![fx(0.1); 2047];
    assert_eq!(denoise(&mut short, 0), Err(EngineError::InsufficientSamples));
    assert_eq!(short[0], fx(0.1));
}

#[test]
fn denoise_zero_buffer_stays_zero() {
    let mut buffer = vec![0i64; 4096];
    assert_eq!(denoise(&mut buffer, fx(0.05)), Ok(()));
    assert!(buffer.iter().all(|v| *v == 0));
}

#[test]
fn denoise_with_zero_threshold_reconstructs() {
    let n = 8192usize;
    let mut buffer = sine(n, 330.0, 0.5, 44100.0);
    let original = buffer.clone();
    assert_eq!(denoise(&mut buffer, 0), Ok(()));
    // The overlap-add identity holds where full window overlap is reached;
    // the first and last frames' reach is excluded.
    let mut worst = 0.0f64;
    for i in DENOISE_FRAME..(n - 2 * DENOISE_FRAME) {
        let d = (to_f(buffer[i]) - to_f(original[i])).abs();
        if d > worst {
            worst = d;
        }
    }
    assert!(worst < 0.02, "reconstruction error too large: {}", worst);
}

/// The host wiring of spectral analysis: the engine windows the newest
/// frame, the transform runs in floating point, the engine measures the
/// spectrum and keeps the flux state.
fn analyze(
    p: &mut AudioProcessor,
    buffer: &Vec<i64>,
) -> Result<audio_engine::processor::SpectrumAnalysisResult, EngineError> {
    analysis_check(buffer.len())?;
    let window = hann_window(ANALYSIS_FRAME);
    let frame = window_frame(buffer, &window, analysis_start(buffer.len()));
    let mut time: Vec<f32> = frame.iter().map(|v| to_f(*v) as f32).collect();
    let mut planner = RealFftPlanner::<f32>::new();
    let forward = planner.plan_fft_forward(ANALYSIS_FRAME);
    let mut spectrum = forward.make_output_vec();
    forward
        .process(&mut time, &mut spectrum)
        .map_err(|_| EngineError::TransformFailure)?;
    let bins: Vec<(i64, i64)> =
        spectrum.iter().map(|c| (fx(c.re as f64), fx(c.im as f64))).collect();
    let phases: Vec<i64> =
        spectrum.iter().map(|c| fx((c.im as f64).atan2(c.re as f64))).collect();
    Ok(p.spectrum_from_bins(&bins, &phases))
}

#[test]
fn analysis_needs_half_a_frame() {
    let mut p = AudioProcessor::new();
    let short = sine(511, 440.0, 0.5, 44100.0);
    assert!(analyze(&mut p, &short).is_err());
}

#[test]
fn first_flux_is_zero_and_identical_frames_add_none() {
    let mut p = AudioProcessor::new();
    let buffer = sine(2048, 440.0, 0.5, 44100.0);
    let first = analyze(&mut p, &buffer).unwrap();
    assert_eq!(first.spectral_flux, 0);
    let second = analyze(&mut p, &buffer).unwrap();
    assert_eq!(second.spectral_flux, 0);
}

#[test]
fn flux_reports_magnitude_increase() {
    let mut p = AudioProcessor::new();
    let quiet = sine(2048, 440.0, 0.1, 44100.0);
    let loud = sine(2048, 440.0, 0.9, 44100.0);
    let _ = analyze(&mut p, &quiet).unwrap();
    let louder = analyze(&mut p, &loud).unwrap();
    assert!(louder.spectral_flux > 0, "rising level must give positive flux");
}

#[test]
fn dominant_frequency_finds_the_tone() {
    let mut p = AudioProcessor::new();
    let buffer = sine(4096, 1000.0, 0.8, 44100.0);
    let result = analyze(&mut p, &buffer).unwrap();
    let bin_width = 44100.0 / ANALYSIS_FRAME as f64;
    let dominant = to_f(result.dominant_frequency);
    assert!(
        (dominant - 1000.0).abs() <= bin_width,
        "dominant {} not within one bin of 1000",
        dominant
    );
    assert_eq!(result.magnitudes.len(), ANALYSIS_FRAME / 2 + 1);
    assert_eq!(result.frequencies.len(), result.magnitudes.len());
    assert_eq!(result.phases.len(), result.magnitudes.len());
    // Bin centers are index * sample_rate / frame.
    assert_eq!(result.frequencies[0], 0);
    assert!((to_f(result.frequencies[1]) - bin_width).abs() < 1e-6);
}

#[test]
fn bin_magnitude_is_exact_on_a_pythagorean_pair() {
    assert_eq!(bin_magnitude(fx(3.0), fx(4.0)), fx(5.0));
    assert_eq!(bin_magnitude(fx(-3.0), fx(4.0)), fx(5.0));
    assert_eq!(bin_magnitude(0, 0), 0);
}

#[test]
fn denoise_with_huge_threshold_silences_everything() {
    let n = 8192usize;
    let mut buffer = sine(n, 330.0, 0.5, 44100.0);
    assert_eq!(denoise(&mut buffer, fx(100000.0)), Ok(()));
    assert!(buffer.iter().all(|v| *v == 0));
}
