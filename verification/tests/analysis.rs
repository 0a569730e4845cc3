//! The analyzer pipeline, driven with a real transform.

use rustfft::num_complex::Complex;
use rustfft::FftPlanner;
use visualizer::analyzer::{doubled, is_finite_bits, Analyzer, SpectrumPlan, RETENTION};
use visualizer::parameter::Parameter;

fn bits(samples: &[f32]) -> Vec<u32> {
    samples.iter().map(|s| s.to_bits()).collect()
}

fn sine(frequency: f32, sample_rate: f32, count: usize) -> Vec<f32> {
    (0..count)
        .map(|i| (2.0 * std::f32::consts::PI * frequency * i as f32 / sample_rate).sin())
        .collect()
}

/// Run the floating-point half of one update over the analyzer's window:
/// transform, one-sided correction, band restriction.
fn spectrum(analyzer: &mut Analyzer, sample_rate: u32) -> SpectrumPlan {
    let window = analyzer.window();
    let mut buffer: Vec<Complex<f32>> = window
        .iter()
        .map(|&b| Complex::from(f32::from_bits(b)))
        .collect();
    FftPlanner::new()
        .plan_fft_forward(buffer.len())
        .process(&mut buffer);

    let plan = SpectrumPlan::compute(buffer.len(), sample_rate);
    let mut magnitudes: Vec<u32> = Vec::new();
    for i in plan.first..plan.end {
        let weight = if doubled(i, plan.half) { 2.0 } else { 1.0 };
        magnitudes.push((buffer[i].norm() * weight).to_bits());
    }
    analyzer.set_spectrum(magnitudes);
    plan
}

#[test]
fn pure_tone_dominates_its_bin() {
    let mut analyzer = Analyzer::new();
    analyzer.ingest(&bits(&sine(440.0, 44100.0, 1024)), false);
    assert_eq!(analyzer.samples().len(), 1024);

    let plan = spectrum(&mut analyzer, 44100);
    assert_eq!(plan.first, 0);
    assert_eq!(plan.half, 512);
    assert_eq!(plan.end, 15000 * 1024 / 44100);

    let magnitudes = analyzer.frequencies();
    let mut best = 0;
    for i in 0..magnitudes.len() {
        if f32::from_bits(magnitudes[i]) > f32::from_bits(magnitudes[best]) {
            best = i;
        }
    }
    // 440 Hz lands at bin 440 * 1024 / 44100.
    assert_eq!(plan.first + best, 10);
}

#[test]
fn one_sided_correction_skips_dc_and_nyquist() {
    assert!(!doubled(0, 512));
    assert!(!doubled(512, 512));
    for i in 1..512 {
        assert!(doubled(i, 512));
    }
}

#[test]
fn band_selection_clips_to_the_audible_range() {
    // At a low rate the upper band edge passes the Nyquist bin and the
    // selection stops there.
    let plan = SpectrumPlan::compute(1024, 8000);
    assert_eq!(plan.first, 20 * 1024 / 8000);
    assert_eq!(plan.end, 512);
    // A tiny window at a high rate keeps nothing below 20 Hz.
    let plan = SpectrumPlan::compute(4, 44100);
    assert_eq!((plan.first, plan.end, plan.half), (0, 1, 2));
}

#[test]
fn eviction_keeps_the_retention_window_and_all_fresh_samples() {
    let mut analyzer = Analyzer::new();
    let first: Vec<u32> = (0..1024u32).collect();
    analyzer.ingest(&first, false);
    // Nothing retained before the update is older than the update itself.
    assert_eq!(analyzer.samples().len(), 1024);

    let fresh: Vec<u32> = (2000..2010u32).collect();
    analyzer.ingest(&fresh, false);
    assert_eq!(analyzer.samples().len(), RETENTION);
    assert_eq!(analyzer.samples()[0], 1024 - (RETENTION as u32 - 10));
    assert_eq!(analyzer.samples()[RETENTION - 1], 2009);
}

#[test]
fn finished_stream_clears_the_window() {
    let mut analyzer = Analyzer::new();
    analyzer.ingest(&vec![1, 2, 3], false);
    analyzer.ingest(&vec![4], true);
    assert_eq!(analyzer.samples().len(), 0);
    assert_eq!(analyzer.window().len(), 0);
}

#[test]
fn window_truncates_to_even_length() {
    let mut analyzer = Analyzer::new();
    analyzer.ingest(&vec![10, 20, 30], false);
    assert_eq!(analyzer.window(), vec![10, 20]);
}

#[test]
fn quiescent_update_changes_nothing() {
    let mut analyzer = Analyzer::new();
    analyzer.ingest(&bits(&sine(440.0, 44100.0, 100)), false);
    let before = analyzer.samples().clone();
    analyzer.set_spectrum(vec![1, 2, 3]);

    analyzer.ingest(&Vec::new(), false);
    assert_eq!(analyzer.samples(), &before);
    assert_eq!(analyzer.frequencies(), &vec![1, 2, 3]);

    // With the maximum coefficient the loudness is exactly the instantaneous
    // recomputation; with the minimum it is exactly the previous value.
    let instantaneous = 0.75f32.to_bits();
    analyzer.smooth_loudness(Parameter::new(63), instantaneous, 0.1f32.to_bits());
    assert_eq!(analyzer.rms(), instantaneous);
    analyzer.smooth_loudness(Parameter::new(-64), 0.9f32.to_bits(), 0.1f32.to_bits());
    assert_eq!(analyzer.rms(), instantaneous);
}

#[test]
fn blended_loudness_is_stored_for_interior_coefficients() {
    let mut analyzer = Analyzer::new();
    let blended = 0.375f32.to_bits();
    analyzer.smooth_loudness(Parameter::new(0), 0.5f32.to_bits(), blended);
    assert_eq!(analyzer.rms(), blended);
}

#[test]
fn degenerate_loudness_resets_to_zero() {
    let mut analyzer = Analyzer::new();
    analyzer.smooth_loudness(Parameter::new(63), f32::NAN.to_bits(), 0);
    assert_eq!(analyzer.rms(), 0);
    analyzer.smooth_loudness(Parameter::new(0), 0, f32::INFINITY.to_bits());
    assert_eq!(analyzer.rms(), 0);
    assert!(is_finite_bits(analyzer.rms()));
    assert!(!is_finite_bits(f32::NAN.to_bits()));
}
