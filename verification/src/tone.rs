//! Tone synthesis: turning a (frequency, duration, wave shape, volume)
//! tuple into a buffer of fixed-point audio samples.
//!
//! The samples are mono amplitudes in `[-AMP_UNIT, AMP_UNIT]`; a separate
//! helper duplicates them across a device's channels. Writing the buffer to
//! an audio device is the surrounding application's business.

use vstd::prelude::*;
use crate::waveform::{AMP_UNIT, PHASE_CYCLE, WaveType, sample, wave_amp};

verus! {

/// Number of samples a tone of `duration_ms` milliseconds spans at
/// `sample_rate` samples per second.
pub open spec fn sample_count_spec(duration_ms: int, sample_rate: int) -> int {
    duration_ms * sample_rate / 1000
}

/// Phase, in phase units within one cycle, of sample `i` of a tone at
/// `freq_centihz` centihertz rendered at `sample_rate` samples per second.
pub open spec fn tone_phase_spec(freq_centihz: int, i: int, sample_rate: int) -> int {
    (freq_centihz * i * PHASE_CYCLE as int) / (100 * sample_rate) % PHASE_CYCLE as int
}

/// Scales an amplitude by a volume in per-mille of full scale, rounding
/// toward zero.
pub open spec fn scale_amp(amp: int, volume_milli: int) -> int {
    if amp >= 0 {
        amp * volume_milli / 1000
    } else {
        -((-amp) * volume_milli / 1000)
    }
}

/// Clamps an amplitude to full scale.
pub open spec fn clamp_amp(amp: int) -> int {
    if amp < -(AMP_UNIT as int) {
        -(AMP_UNIT as int)
    } else if amp > AMP_UNIT as int {
        AMP_UNIT as int
    } else {
        amp
    }
}

/// The amplitude of sample `i` of a tone: the wave shape sampled at the
/// sample's phase, scaled by the volume and clamped to full scale.
pub open spec fn tone_amp_spec(
    freq_centihz: int,
    i: int,
    wave: WaveType,
    volume_milli: int,
    sample_rate: int,
) -> int {
    clamp_amp(scale_amp(wave_amp(wave, tone_phase_spec(freq_centihz, i, sample_rate)), volume_milli))
}

/// Synthesizes the mono sample buffer of one tone.
///
/// A tone of `duration_ms` milliseconds at `sample_rate` samples per second
/// spans `duration_ms * sample_rate / 1000` samples; sample `i` carries the
/// wave's amplitude at phase `freq_centihz * i / (100 * sample_rate)` of a
/// cycle, scaled by `volume_milli` per-mille and clamped to full scale.
/// Volume 0 gives silence for the whole duration.
pub fn render_samples(
    freq_centihz: u32,
    duration_ms: u64,
    wave: WaveType,
    volume_milli: u32,
    sample_rate: u32,
) -> (samples: Vec<i32>)
    requires
        freq_centihz >= 1,
        sample_rate >= 1,
        duration_ms as int * sample_rate as int <= u64::MAX as int,
        sample_count_spec(duration_ms as int, sample_rate as int) <= usize::MAX as int,
    ensures
        samples@.len() == sample_count_spec(duration_ms as int, sample_rate as int),
        forall|i: int|
            0 <= i < samples@.len() ==> samples@[i] == tone_amp_spec(
                freq_centihz as int,
                i,
                wave,
                volume_milli as int,
                sample_rate as int,
            ),
        forall|i: int| 0 <= i < samples@.len() ==> -AMP_UNIT <= #[trigger] samples@[i] <= AMP_UNIT,
{
    let count = (duration_ms * (sample_rate as u64)) / 1000;
    let mut samples: Vec<i32> = Vec::new();
    let mut i: u64 = 0;
    while i < count
        invariant
            i <= count,
            count == sample_count_spec(duration_ms as int, sample_rate as int),
            count <= usize::MAX,
            freq_centihz >= 1,
            sample_rate >= 1,
            samples@.len() == i,
            forall|j: int|
                0 <= j < i ==> samples@[j] == tone_amp_spec(
                    freq_centihz as int,
                    j,
                    wave,
                    volume_milli as int,
                    sample_rate as int,
                ),
        decreases count - i,
    {
        proof {
            assert((freq_centihz as int) * (i as int) * (PHASE_CYCLE as int) <= u128::MAX as int)
                by (nonlinear_arith)
                requires
                    freq_centihz <= u32::MAX,
                    i <= u64::MAX,
                    PHASE_CYCLE == 65536,
            ;
        }
        let num = (freq_centihz as u128) * (i as u128) * (PHASE_CYCLE as u128);
        let den = 100u128 * (sample_rate as u128);
        let phase = ((num / den) % (PHASE_CYCLE as u128)) as u32;
        let amp = sample(wave, phase);
        let mag: i64 = if amp >= 0 {
            amp as i64
        } else {
            (-amp) as i64
        };
        proof {
            assert(mag * (volume_milli as int) <= i64::MAX as int && 0 <= mag * (
            volume_milli as int)) by (nonlinear_arith)
                requires
                    0 <= mag <= 32768,
                    0 <= volume_milli <= u32::MAX,
            ;
        }
        let scaled_mag = mag * (volume_milli as i64) / 1000;
        let scaled: i64 = if amp >= 0 {
            scaled_mag
        } else {
            -scaled_mag
        };
        let clamped: i32 = if scaled < -(AMP_UNIT as i64) {
            -AMP_UNIT
        } else if scaled > AMP_UNIT as i64 {
            AMP_UNIT
        } else {
            scaled as i32
        };
        samples.push(clamped);
        i = i + 1;
    }
    samples
}

/// Duplicates a mono sample buffer across `channels` interleaved channels,
/// the layout an audio device with more than one channel consumes.
pub fn interleave_channels(samples: &Vec<i32>, channels: u16) -> (out: Vec<i32>)
    requires
        channels >= 1,
        samples@.len() * channels as int <= usize::MAX as int,
    ensures
        out@.len() == samples@.len() * channels as int,
        forall|i: int| 0 <= i < out@.len() ==> out@[i] == samples@[i / channels as int],
{
    let total = samples.len() * (channels as usize);
    let mut out: Vec<i32> = Vec::new();
    let mut i: usize = 0;
    while i < total
        invariant
            i <= total,
            channels >= 1,
            total == samples@.len() * channels as int,
            total <= usize::MAX,
            out@.len() == i,
            forall|j: int| 0 <= j < i ==> out@[j] == samples@[j / channels as int],
        decreases total - i,
    {
        proof {
            let c = channels as int;
            let n = samples@.len() as int;
            vstd::arithmetic::div_mod::lemma_fundamental_div_mod(i as int, c);
            assert((n - 1) * c + (c - 1) == n * c - 1) by (nonlinear_arith);
            vstd::arithmetic::div_mod::lemma_fundamental_div_mod_converse(
                n * c - 1,
                c,
                n - 1,
                c - 1,
            );
            vstd::arithmetic::div_mod::lemma_div_is_ordered(i as int, n * c - 1, c);
            vstd::arithmetic::div_mod::lemma_div_is_ordered(0, i as int, c);
        }
        let idx = i / (channels as usize);
        out.push(samples[idx]);
        i = i + 1;
    }
    out
}

} // verus!
