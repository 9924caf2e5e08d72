use audio_engine::errors::EngineError;
use audio_engine::fixed::FX_ONE;
use audio_engine::processor::AudioProcessor;

fn fx(x: f64) -> i64 {
    (x * 4294967296.0).round() as i64
}

#[test]
fn waveform_exact_bucket_peaks() {
    let p = AudioProcessor::new();
    let buffer: Vec<i64> = vec![
        fx(0.1),
        fx(-0.4),
        fx(0.2),
        fx(0.3),
        fx(-0.9),
        fx(0.05),
        fx(0.6),
        fx(-0.1),
    ];
    let w = p.generate_waveform(&buffer, 4);
    assert_eq!(w.len(), 4);
    assert_eq!(w[0], fx(0.4));
    assert_eq!(w[1], fx(0.3));
    assert_eq!(w[2], fx(0.9));
    assert_eq!(w[3], fx(0.6));
}

#[test]
fn waveform_empty_buffer_gives_zeros() {
    let p = AudioProcessor::new();
    let buffer: Vec<i64> = Vec::new();
    let w = p.generate_waveform(&buffer, 5);
    assert_eq!(w.len(), 5);
    for v in w.iter() {
        assert_eq!(*v, 0);
    }
}

#[test]
fn waveform_short_buffer_interpolates() {
    let p = AudioProcessor::new();
    let buffer: Vec<i64> = vec![fx(-0.5), fx(0.25)];
    let w = p.generate_waveform(&buffer, 4);
    assert_eq!(w.len(), 4);
    // Nearest-neighbor indices 0, 0, 1, 1; magnitudes of the samples there.
    assert_eq!(w[0], fx(0.5));
    assert_eq!(w[1], fx(0.5));
    assert_eq!(w[2], fx(0.25));
    assert_eq!(w[3], fx(0.25));
}

#[test]
fn histories_hold_most_recent_values_in_order() {
    let mut p = AudioProcessor::new();
    assert_eq!(p.rms_history.values.len(), 30);
    assert_eq!(p.pitch_history.values.len(), 10);
    assert_eq!(p.spectral_flux_history.values.len(), 30);
    for k in 0..35i64 {
        let _ = p.record_frame(k + 1, Some(100 + k), Some(200 + k));
    }
    // More pushes than any capacity: each history holds exactly the last
    // `capacity` values, oldest first.
    assert_eq!(p.rms_history.values.len(), 30);
    for (idx, v) in p.rms_history.values.iter().enumerate() {
        assert_eq!(*v, (35 - 30) + idx as i64 + 1);
    }
    assert_eq!(p.pitch_history.values.len(), 10);
    for (idx, v) in p.pitch_history.values.iter().enumerate() {
        assert_eq!(*v, 100 + (35 - 10) + idx as i64);
    }
    assert_eq!(p.spectral_flux_history.values.len(), 30);
    for (idx, v) in p.spectral_flux_history.values.iter().enumerate() {
        assert_eq!(*v, 200 + (35 - 30) + idx as i64);
    }
}

#[test]
fn record_frame_skips_absent_pitch_and_flux() {
    let mut p = AudioProcessor::new();
    let s = p.record_frame(fx(0.5), None, None);
    assert_eq!(s.rms_history[29], fx(0.5));
    assert!(s.pitch_history.iter().all(|v| *v == 0));
    assert!(s.spectral_flux_history.iter().all(|v| *v == 0));
}

#[test]
fn envelope_smoothing_is_one_pole() {
    let mut p = AudioProcessor::new();
    let s1 = p.record_frame(1000, None, None);
    // (9 * 0 + 1000) / 10
    assert_eq!(s1.envelope, 100);
    let s2 = p.record_frame(1000, None, None);
    // (9 * 100 + 1000) / 10
    assert_eq!(s2.envelope, 190);
}

#[test]
fn initial_state_is_zero_filled() {
    let p = AudioProcessor::new();
    assert_eq!(p.sample_rate, 44100);
    let s = p.get_processor_state();
    assert_eq!(s.envelope, 0);
    assert_eq!(s.pitch_history.len(), 10);
    assert_eq!(s.spectral_flux_history.len(), 30);
    assert_eq!(s.rms_history.len(), 30);
    assert!(s.pitch_history.iter().all(|v| *v == 0));
    assert!(s.rms_history.iter().all(|v| *v == 0));
}

#[test]
fn set_sample_rate_validates() {
    let mut p = AudioProcessor::new();
    assert_eq!(p.set_sample_rate(48000), Ok(()));
    assert_eq!(p.sample_rate, 48000);
    assert_eq!(p.set_sample_rate(0), Err(EngineError::InvalidParameter));
    assert_eq!(p.sample_rate, 48000);
    assert_eq!(p.set_sample_rate(2_000_000), Err(EngineError::InvalidParameter));
}

#[test]
fn loop_points_are_percentages() {
    let p = AudioProcessor::new();
    let pts = p.calculate_loop_points(1000, fx(10.0), fx(200.0));
    assert_eq!(pts.len(), 2);
    assert_eq!(pts[0], 100);
    assert_eq!(pts[1], 2000);
    let neg = p.calculate_loop_points(1000, fx(-5.0), fx(50.0));
    assert_eq!(neg[0], 0);
    assert_eq!(neg[1], 500);
}

#[test]
fn normalize_volume_scales_to_target() {
    let p = AudioProcessor::new();
    let mut buffer = vec![fx(0.25), fx(-0.5), fx(0.125)];
    let gain = p.normalize_volume(&mut buffer, FX_ONE);
    assert_eq!(gain, fx(2.0));
    assert_eq!(buffer, vec![fx(0.5), fx(-1.0), fx(0.25)]);
    let mut tiny = vec![1i64, -2, 0];
    let gain = p.normalize_volume(&mut tiny, FX_ONE);
    assert_eq!(gain, FX_ONE);
    assert_eq!(tiny, vec![1, -2, 0]);
}
