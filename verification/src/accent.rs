//! Accent configuration for metronomes.
//!
//! An [`AccentConfig`] bundles the sound of accented beats, regular beats
//! and subdivision clicks. Frequencies are in centihertz (one hundredth of
//! a hertz, so 44000 stands for 440 Hz), durations in milliseconds, and the
//! subdivision volume in per-mille of full scale (1000 stands for 1.0).
//! Each named preset has a companion spec function giving the exact
//! configuration it builds.

use vstd::prelude::*;
use crate::waveform::WaveType;

verus! {

/// Configuration for accent beats in the metronome.
#[derive(Clone, Copy, Debug, PartialEq, Eq, Structural)]
pub struct AccentConfig {
    /// Frequency for accented beats (centihertz).
    pub accent_frequency: u32,
    /// Frequency for regular beats (centihertz).
    pub regular_frequency: u32,
    /// Duration for accented beats (ms).
    pub accent_duration: u64,
    /// Duration for regular beats (ms).
    pub regular_duration: u64,
    /// Wave shape for accented beats.
    pub accent_wave_type: WaveType,
    /// Wave shape for regular beats.
    pub regular_wave_type: WaveType,
    /// Number of subdivisions per beat (e.g., 2 for eighth notes); 1 means
    /// no subdivisions.
    pub subdivisions: u32,
    /// Frequency for subdivision clicks (centihertz).
    pub subdivision_frequency: u32,
    /// Duration for subdivision clicks (ms).
    pub subdivision_duration: u64,
    /// Wave shape for subdivision clicks.
    pub subdivision_wave_type: WaveType,
    /// Volume for subdivision clicks, in per-mille of full scale.
    pub subdivision_volume: u32,
}

impl AccentConfig {
    /// A configuration is well formed when its frequencies are positive,
    /// it has at least one subdivision per beat, and the subdivision volume
    /// does not exceed full scale.
    pub open spec fn wf(self) -> bool {
        &&& self.accent_frequency >= 1
        &&& self.regular_frequency >= 1
        &&& self.subdivision_frequency >= 1
        &&& self.subdivisions >= 1
        &&& self.subdivision_volume <= 1000
    }

    /// The configuration that [`Self::default`] builds: an octave jump on
    /// the accent, sine waves throughout, and no subdivisions.
    pub open spec fn default_spec() -> Self {
        AccentConfig {
            accent_frequency: 88000u32,
            regular_frequency: 44000u32,
            accent_duration: 150u64,
            regular_duration: 100u64,
            accent_wave_type: WaveType::Sine,
            regular_wave_type: WaveType::Sine,
            subdivisions: 1u32,
            subdivision_frequency: 52325u32,
            subdivision_duration: 80u64,
            subdivision_wave_type: WaveType::Sine,
            subdivision_volume: 700u32,
        }
    }

    /// The configuration that [`Self::new`] builds.
    pub open spec fn new_spec(
        accent_frequency: u32,
        regular_frequency: u32,
        accent_duration: u64,
        regular_duration: u64,
        accent_wave_type: WaveType,
        regular_wave_type: WaveType,
    ) -> Self {
        AccentConfig {
            accent_frequency,
            regular_frequency,
            accent_duration,
            regular_duration,
            accent_wave_type,
            regular_wave_type,
            ..Self::default_spec()
        }
    }

    /// Creates a new accent configuration with basic values (no
    /// subdivisions).
    pub fn new(
        accent_frequency: u32,
        regular_frequency: u32,
        accent_duration: u64,
        regular_duration: u64,
        accent_wave_type: WaveType,
        regular_wave_type: WaveType,
    ) -> (c: Self)
        requires
            accent_frequency >= 1,
            regular_frequency >= 1,
        ensures
            c == Self::new_spec(
                accent_frequency,
                regular_frequency,
                accent_duration,
                regular_duration,
                accent_wave_type,
                regular_wave_type,
            ),
            c.wf(),
    {
        AccentConfig {
            accent_frequency,
            regular_frequency,
            accent_duration,
            regular_duration,
            accent_wave_type,
            regular_wave_type,
            subdivisions: 1,
            subdivision_frequency: 52325,
            subdivision_duration: 80,
            subdivision_wave_type: WaveType::Sine,
            subdivision_volume: 700,
        }
    }

    /// The configuration that [`Self::with_subdivisions`] builds.
    pub open spec fn with_subdivisions_spec(
        accent_frequency: u32,
        regular_frequency: u32,
        subdivisions: u32,
        subdivision_frequency: u32,
    ) -> Self {
        AccentConfig {
            accent_frequency,
            regular_frequency,
            subdivisions,
            subdivision_frequency,
            subdivision_duration: 70u64,
            subdivision_volume: 650u32,
            ..Self::default_spec()
        }
    }

    /// Creates a new accent configuration with subdivision support.
    pub fn with_subdivisions(
        accent_frequency: u32,
        regular_frequency: u32,
        subdivisions: u32,
        subdivision_frequency: u32,
    ) -> (c: Self)
        requires
            accent_frequency >= 1,
            regular_frequency >= 1,
            subdivision_frequency >= 1,
            subdivisions >= 1,
        ensures
            c == Self::with_subdivisions_spec(
                accent_frequency,
                regular_frequency,
                subdivisions,
                subdivision_frequency,
            ),
            c.wf(),
    {
        AccentConfig {
            accent_frequency,
            regular_frequency,
            accent_duration: 150,
            regular_duration: 100,
            accent_wave_type: WaveType::Sine,
            regular_wave_type: WaveType::Sine,
            subdivisions,
            subdivision_frequency,
            subdivision_duration: 70,
            subdivision_wave_type: WaveType::Sine,
            subdivision_volume: 650,
        }
    }

    /// The configuration that [`Self::subtle`] builds.
    pub open spec fn subtle_spec() -> Self {
        AccentConfig {
            accent_frequency: 66000u32,
            accent_duration: 120u64,
            ..Self::default_spec()
        }
    }

    /// Creates an accent configuration with a more subtle difference.
    pub fn subtle() -> (c: Self)
        ensures
            c == Self::subtle_spec(),
            c.wf(),
    {
        AccentConfig {
            accent_frequency: 66000,
            regular_frequency: 44000,
            accent_duration: 120,
            regular_duration: 100,
            accent_wave_type: WaveType::Sine,
            regular_wave_type: WaveType::Sine,
            subdivisions: 1,
            subdivision_frequency: 52325,
            subdivision_duration: 80,
            subdivision_wave_type: WaveType::Sine,
            subdivision_volume: 700,
        }
    }

    /// The configuration that [`Self::strong`] builds.
    pub open spec fn strong_spec() -> Self {
        AccentConfig {
            accent_frequency: 176000u32,
            accent_duration: 200u64,
            regular_duration: 80u64,
            ..Self::default_spec()
        }
    }

    /// Creates an accent configuration with a very pronounced difference.
    pub fn strong() -> (c: Self)
        ensures
            c == Self::strong_spec(),
            c.wf(),
    {
        AccentConfig {
            accent_frequency: 176000,
            regular_frequency: 44000,
            accent_duration: 200,
            regular_duration: 80,
            accent_wave_type: WaveType::Sine,
            regular_wave_type: WaveType::Sine,
            subdivisions: 1,
            subdivision_frequency: 52325,
            subdivision_duration: 80,
            subdivision_wave_type: WaveType::Sine,
            subdivision_volume: 700,
        }
    }

    /// The configuration that [`Self::with_wave_types`] builds.
    pub open spec fn with_wave_types_spec(accent_wave: WaveType, regular_wave: WaveType) -> Self {
        AccentConfig {
            accent_wave_type: accent_wave,
            regular_wave_type: regular_wave,
            ..Self::default_spec()
        }
    }

    /// Creates an accent configuration with different wave shapes for accent
    /// and regular beats.
    pub fn with_wave_types(accent_wave: WaveType, regular_wave: WaveType) -> (c: Self)
        ensures
            c == Self::with_wave_types_spec(accent_wave, regular_wave),
            c.wf(),
    {
        AccentConfig {
            accent_frequency: 88000,
            regular_frequency: 44000,
            accent_duration: 150,
            regular_duration: 100,
            accent_wave_type: accent_wave,
            regular_wave_type: regular_wave,
            subdivisions: 1,
            subdivision_frequency: 52325,
            subdivision_duration: 80,
            subdivision_wave_type: WaveType::Sine,
            subdivision_volume: 700,
        }
    }

    /// Creates an accent configuration where both accent and regular beats
    /// use the same wave shape.
    pub fn with_wave_type(wave_type: WaveType) -> (c: Self)
        ensures
            c == Self::with_wave_types_spec(wave_type, wave_type),
            c.wf(),
    {
        Self::with_wave_types(wave_type, wave_type)
    }

    /// The configuration that [`Self::strong_square`] builds.
    pub open spec fn strong_square_spec() -> Self {
        AccentConfig { accent_wave_type: WaveType::Square, ..Self::strong_spec() }
    }

    /// Creates a strong accent configuration with a square wave accent for
    /// a more pronounced effect.
    pub fn strong_square() -> (c: Self)
        ensures
            c == Self::strong_square_spec(),
            c.wf(),
    {
        AccentConfig {
            accent_frequency: 176000,
            regular_frequency: 44000,
            accent_duration: 200,
            regular_duration: 80,
            accent_wave_type: WaveType::Square,
            regular_wave_type: WaveType::Sine,
            subdivisions: 1,
            subdivision_frequency: 52325,
            subdivision_duration: 80,
            subdivision_wave_type: WaveType::Sine,
            subdivision_volume: 700,
        }
    }

    /// The configuration that [`Self::subtle_triangle`] builds.
    pub open spec fn subtle_triangle_spec() -> Self {
        AccentConfig {
            accent_wave_type: WaveType::Triangle,
            regular_wave_type: WaveType::Triangle,
            ..Self::subtle_spec()
        }
    }

    /// Creates a subtle accent configuration with triangle waves for a
    /// softer sound.
    pub fn subtle_triangle() -> (c: Self)
        ensures
            c == Self::subtle_triangle_spec(),
            c.wf(),
    {
        AccentConfig {
            accent_frequency: 66000,
            regular_frequency: 44000,
            accent_duration: 120,
            regular_duration: 100,
            accent_wave_type: WaveType::Triangle,
            regular_wave_type: WaveType::Triangle,
            subdivisions: 1,
            subdivision_frequency: 52325,
            subdivision_duration: 80,
            subdivision_wave_type: WaveType::Sine,
            subdivision_volume: 700,
        }
    }

    /// The configuration that [`Self::with_eighth_notes`] builds.
    pub open spec fn with_eighth_notes_spec() -> Self {
        AccentConfig {
            subdivisions: 2u32,
            subdivision_frequency: 58733u32,
            subdivision_duration: 70u64,
            subdivision_volume: 650u32,
            ..Self::default_spec()
        }
    }

    /// Creates a configuration with eighth note subdivisions (2 subdivisions
    /// per beat).
    pub fn with_eighth_notes() -> (c: Self)
        ensures
            c == Self::with_eighth_notes_spec(),
            c.wf(),
    {
        AccentConfig {
            accent_frequency: 88000,
            regular_frequency: 44000,
            accent_duration: 150,
            regular_duration: 100,
            accent_wave_type: WaveType::Sine,
            regular_wave_type: WaveType::Sine,
            subdivisions: 2,
            subdivision_frequency: 58733,
            subdivision_duration: 70,
            subdivision_wave_type: WaveType::Sine,
            subdivision_volume: 650,
        }
    }

    /// The configuration that [`Self::with_sixteenth_notes`] builds.
    pub open spec fn with_sixteenth_notes_spec() -> Self {
        AccentConfig {
            subdivisions: 4u32,
            subdivision_frequency: 65925u32,
            subdivision_duration: 80u64,
            subdivision_wave_type: WaveType::Square,
            subdivision_volume: 550u32,
            ..Self::default_spec()
        }
    }

    /// Creates a configuration with sixteenth note subdivisions (4
    /// subdivisions per beat).
    pub fn with_sixteenth_notes() -> (c: Self)
        ensures
            c == Self::with_sixteenth_notes_spec(),
            c.wf(),
    {
        AccentConfig {
            accent_frequency: 88000,
            regular_frequency: 44000,
            accent_duration: 150,
            regular_duration: 100,
            accent_wave_type: WaveType::Sine,
            regular_wave_type: WaveType::Sine,
            subdivisions: 4,
            subdivision_frequency: 65925,
            subdivision_duration: 80,
            subdivision_wave_type: WaveType::Square,
            subdivision_volume: 550,
        }
    }

    /// The configuration that [`Self::with_triplets`] builds.
    pub open spec fn with_triplets_spec() -> Self {
        AccentConfig {
            subdivisions: 3u32,
            subdivision_duration: 65u64,
            subdivision_wave_type: WaveType::Triangle,
            subdivision_volume: 600u32,
            ..Self::default_spec()
        }
    }

    /// Creates a configuration with triplet subdivisions (3 subdivisions per
    /// beat).
    pub fn with_triplets() -> (c: Self)
        ensures
            c == Self::with_triplets_spec(),
            c.wf(),
    {
        AccentConfig {
            accent_frequency: 88000,
            regular_frequency: 44000,
            accent_duration: 150,
            regular_duration: 100,
            accent_wave_type: WaveType::Sine,
            regular_wave_type: WaveType::Sine,
            subdivisions: 3,
            subdivision_frequency: 52325,
            subdivision_duration: 65,
            subdivision_wave_type: WaveType::Triangle,
            subdivision_volume: 600,
        }
    }

    /// The configuration that [`Self::with_custom_subdivisions`] builds.
    pub open spec fn with_custom_subdivisions_spec(
        subdivisions: u32,
        subdivision_frequency: u32,
        subdivision_volume: u32,
    ) -> Self {
        AccentConfig {
            subdivisions,
            subdivision_frequency,
            subdivision_duration: 70u64,
            subdivision_volume,
            ..Self::default_spec()
        }
    }

    /// Creates a custom subdivision configuration.
    pub fn with_custom_subdivisions(
        subdivisions: u32,
        subdivision_frequency: u32,
        subdivision_volume: u32,
    ) -> (c: Self)
        requires
            subdivisions >= 1,
            subdivision_frequency >= 1,
            subdivision_volume <= 1000,
        ensures
            c == Self::with_custom_subdivisions_spec(
                subdivisions,
                subdivision_frequency,
                subdivision_volume,
            ),
            c.wf(),
    {
        AccentConfig {
            accent_frequency: 88000,
            regular_frequency: 44000,
            accent_duration: 150,
            regular_duration: 100,
            accent_wave_type: WaveType::Sine,
            regular_wave_type: WaveType::Sine,
            subdivisions,
            subdivision_frequency,
            subdivision_duration: 70,
            subdivision_wave_type: WaveType::Sine,
            subdivision_volume,
        }
    }

    /// Returns a copy of this configuration with the specified number of
    /// subdivisions.
    pub fn set_subdivisions(self, subdivisions: u32) -> (c: Self)
        requires
            subdivisions >= 1,
        ensures
            c == (AccentConfig { subdivisions, ..self }),
    {
        AccentConfig { subdivisions, ..self }
    }

    /// Returns a copy of this configuration with the specified subdivision
    /// frequency (centihertz).
    pub fn set_subdivision_frequency(self, frequency: u32) -> (c: Self)
        requires
            frequency >= 1,
        ensures
            c == (AccentConfig { subdivision_frequency: frequency, ..self }),
    {
        AccentConfig { subdivision_frequency: frequency, ..self }
    }

    /// Returns a copy of this configuration with the specified subdivision
    /// volume (per-mille of full scale).
    pub fn set_subdivision_volume(self, volume: u32) -> (c: Self)
        requires
            volume <= 1000,
        ensures
            c == (AccentConfig { subdivision_volume: volume, ..self }),
    {
        AccentConfig { subdivision_volume: volume, ..self }
    }

    /// Returns a copy of this configuration with the specified subdivision
    /// wave shape.
    pub fn set_subdivision_wave_type(self, wave_type: WaveType) -> (c: Self)
        ensures
            c == (AccentConfig { subdivision_wave_type: wave_type, ..self }),
    {
        AccentConfig { subdivision_wave_type: wave_type, ..self }
    }

    /// The configuration that [`Self::practice_subdivisions`] builds.
    pub open spec fn practice_subdivisions_spec() -> Self {
        AccentConfig {
            subdivisions: 2u32,
            subdivision_frequency: 58733u32,
            subdivision_volume: 750u32,
            ..Self::default_spec()
        }
    }

    /// Creates a configuration optimized for practicing slow pieces with
    /// clear subdivisions.
    pub fn practice_subdivisions() -> (c: Self)
        ensures
            c == Self::practice_subdivisions_spec(),
            c.wf(),
    {
        AccentConfig {
            accent_frequency: 88000,
            regular_frequency: 44000,
            accent_duration: 150,
            regular_duration: 100,
            accent_wave_type: WaveType::Sine,
            regular_wave_type: WaveType::Sine,
            subdivisions: 2,
            subdivision_frequency: 58733,
            subdivision_duration: 80,
            subdivision_wave_type: WaveType::Sine,
            subdivision_volume: 750,
        }
    }

    /// The configuration that [`Self::technical_subdivisions`] builds.
    pub open spec fn technical_subdivisions_spec() -> Self {
        AccentConfig {
            accent_frequency: 104650u32,
            regular_frequency: 52325u32,
            accent_duration: 120u64,
            regular_duration: 80u64,
            accent_wave_type: WaveType::Square,
            regular_wave_type: WaveType::Sine,
            subdivisions: 4u32,
            subdivision_frequency: 69846u32,
            subdivision_duration: 70u64,
            subdivision_wave_type: WaveType::Square,
            subdivision_volume: 600u32,
        }
    }

    /// Creates a configuration optimized for fast technical passages.
    pub fn technical_subdivisions() -> (c: Self)
        ensures
            c == Self::technical_subdivisions_spec(),
            c.wf(),
    {
        AccentConfig {
            accent_frequency: 104650,
            regular_frequency: 52325,
            accent_duration: 120,
            regular_duration: 80,
            accent_wave_type: WaveType::Square,
            regular_wave_type: WaveType::Sine,
            subdivisions: 4,
            subdivision_frequency: 69846,
            subdivision_duration: 70,
            subdivision_wave_type: WaveType::Square,
            subdivision_volume: 600,
        }
    }
}

impl Default for AccentConfig {
    /// The default accent configuration: an octave jump on the accent, sine
    /// waves throughout, and no subdivisions.
    fn default() -> (c: Self)
        ensures
            c == AccentConfig::default_spec(),
            c.wf(),
    {
        AccentConfig {
            accent_frequency: 88000,
            regular_frequency: 44000,
            accent_duration: 150,
            regular_duration: 100,
            accent_wave_type: WaveType::Sine,
            regular_wave_type: WaveType::Sine,
            subdivisions: 1,
            subdivision_frequency: 52325,
            subdivision_duration: 80,
            subdivision_wave_type: WaveType::Sine,
            subdivision_volume: 700,
        }
    }
}

} // verus!
