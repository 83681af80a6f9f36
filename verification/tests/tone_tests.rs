//! Tests for waveform sampling and tone synthesis.

use metronome_rs::tone::{interleave_channels, render_samples};
use metronome_rs::waveform::{sample, AMP_UNIT, PHASE_CYCLE, PHASE_HALF};
use metronome_rs::WaveType;

const ALL_WAVES: [WaveType; 4] = [
    WaveType::Sine,
    WaveType::Square,
    WaveType::Sawtooth,
    WaveType::Triangle,
];

#[test]
fn test_beep() {
    println!("Ensure you hear a beep sound");
    // The synthesis half of a beep: a 440 Hz sine tone of 500 ms at a
    // 44100 Hz sample rate; the buffer is what a device would play.
    let samples = render_samples(44000, 500, WaveType::Sine, 1000, 44100);
    assert_eq!(samples.len(), 22050, "Failed to play beep");
}

#[test]
fn test_sample_amplitude_range() {
    // Every wave shape stays within full scale over a whole cycle.
    for wave in ALL_WAVES {
        for phase in 0..PHASE_CYCLE {
            let amp = sample(wave, phase);
            assert!((-AMP_UNIT..=AMP_UNIT).contains(&amp), "{wave:?} at {phase}");
        }
    }
}

#[test]
fn test_sample_waveform_values() {
    // Square: full positive over the first half-cycle, full negative after.
    assert_eq!(sample(WaveType::Square, 0), AMP_UNIT);
    assert_eq!(sample(WaveType::Square, PHASE_HALF - 1), AMP_UNIT);
    assert_eq!(sample(WaveType::Square, PHASE_HALF), -AMP_UNIT);
    assert_eq!(sample(WaveType::Square, PHASE_CYCLE - 1), -AMP_UNIT);

    // Sawtooth: ramp from -1 up to +1 across the cycle.
    assert_eq!(sample(WaveType::Sawtooth, 0), -AMP_UNIT);
    assert_eq!(sample(WaveType::Sawtooth, PHASE_HALF), 0);
    assert_eq!(sample(WaveType::Sawtooth, PHASE_CYCLE - 1), AMP_UNIT - 1);

    // Triangle: rise over the first half, fall over the second.
    assert_eq!(sample(WaveType::Triangle, 0), -AMP_UNIT);
    assert_eq!(sample(WaveType::Triangle, PHASE_HALF), AMP_UNIT);
    assert_eq!(sample(WaveType::Triangle, PHASE_CYCLE - 1), -AMP_UNIT + 2);

    // Sine: zero at the half-cycle boundaries, peaks at the quarter cycles.
    assert_eq!(sample(WaveType::Sine, 0), 0);
    assert_eq!(sample(WaveType::Sine, PHASE_HALF / 2), AMP_UNIT);
    assert_eq!(sample(WaveType::Sine, PHASE_HALF), 0);
    assert_eq!(sample(WaveType::Sine, PHASE_HALF + PHASE_HALF / 2), -AMP_UNIT);
}

#[test]
fn test_sample_phase_wraps() {
    for wave in ALL_WAVES {
        assert_eq!(sample(wave, PHASE_CYCLE), sample(wave, 0));
        assert_eq!(sample(wave, PHASE_CYCLE + 123), sample(wave, 123));
    }
}

#[test]
fn test_continuity_and_discontinuities() {
    // Sine and triangle are continuous (small bounded steps); square jumps
    // exactly once per half-cycle; sawtooth resets only at wraparound.
    let mut square_jumps = 0;
    for phase in 0..PHASE_CYCLE {
        let next = (phase + 1) % PHASE_CYCLE;
        let sine_step = sample(WaveType::Sine, next) - sample(WaveType::Sine, phase);
        assert!(sine_step.abs() <= 4, "sine at {phase}");
        let tri_step = sample(WaveType::Triangle, next) - sample(WaveType::Triangle, phase);
        assert_eq!(tri_step.abs(), 2, "triangle at {phase}");
        if sample(WaveType::Square, next) != sample(WaveType::Square, phase) {
            square_jumps += 1;
        }
        let saw_step = sample(WaveType::Sawtooth, next) - sample(WaveType::Sawtooth, phase);
        if phase == PHASE_CYCLE - 1 {
            assert_eq!(saw_step, -(2 * AMP_UNIT - 1), "sawtooth reset");
        } else {
            assert_eq!(saw_step, 1, "sawtooth at {phase}");
        }
    }
    // One jump per half-cycle: two over the whole cycle.
    assert_eq!(square_jumps, 2);
}

#[test]
fn test_render_sample_count() {
    // duration_ms * sample_rate / 1000 samples, truncated.
    assert_eq!(render_samples(44000, 100, WaveType::Sine, 1000, 44100).len(), 4410);
    assert_eq!(render_samples(44000, 1, WaveType::Sine, 1000, 44100).len(), 44);
    assert_eq!(render_samples(44000, 0, WaveType::Sine, 1000, 44100).len(), 0);
}

#[test]
fn test_render_amplitude_range_and_volume() {
    for wave in ALL_WAVES {
        let full = render_samples(88000, 50, wave, 1000, 44100);
        let half = render_samples(88000, 50, wave, 500, 44100);
        assert_eq!(full.len(), half.len());
        for (f, h) in full.iter().zip(half.iter()) {
            assert!((-AMP_UNIT..=AMP_UNIT).contains(f));
            // Half volume scales every sample by half, truncating toward
            // zero, which is what `/` does on i32.
            assert_eq!(*h, f / 2);
        }
    }
}

#[test]
fn test_render_silence_at_zero_volume() {
    // Volume 0 is a legal no-op tone: silence for the whole duration.
    let samples = render_samples(44000, 80, WaveType::Square, 0, 48000);
    assert_eq!(samples.len(), 3840);
    assert!(samples.iter().all(|s| *s == 0));
}

#[test]
fn test_render_matches_waveform() {
    // At a frequency that divides the sample rate the phase advances by an
    // exact step, so rendered samples equal direct waveform samples.
    // 441 Hz at 44100 samples/s: 100 samples per cycle, a step of
    // PHASE_CYCLE / 100 phase units per sample, truncated per sample.
    let samples = render_samples(44100, 10, WaveType::Triangle, 1000, 44100);
    assert_eq!(samples.len(), 441);
    for (i, s) in samples.iter().enumerate() {
        let phase = ((i as u64 * PHASE_CYCLE as u64) / 100 % PHASE_CYCLE as u64) as u32;
        assert_eq!(*s, sample(WaveType::Triangle, phase), "sample {i}");
    }
}

#[test]
fn test_interleave_channels() {
    let mono = vec![1, -2, 3];
    let stereo = interleave_channels(&mono, 2);
    assert_eq!(stereo, vec![1, 1, -2, -2, 3, 3]);
    let same = interleave_channels(&mono, 1);
    assert_eq!(same, mono);
}
