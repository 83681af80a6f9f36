//! A metronome library: a repeating pulse at a configurable tempo, with an
//! optional accent on the first beat of a measure and optional rhythmic
//! subdivisions between beats.
//!
//! The library holds the verified core: waveform sampling and tone synthesis
//! in fixed-point arithmetic, the per-tick scheduling decisions, the accent
//! configuration presets, and the arbiter that keeps at most one metronome
//! audible at a time. Opening an audio device and writing samples to it are
//! left to the surrounding application, which hands the library the device's
//! sample rate and channel count and plays the sample buffers it returns.

pub mod accent;
pub mod metronome;
pub mod scheduler;
pub mod tone;
pub mod waveform;

pub use accent::AccentConfig;
pub use metronome::{
    Metronome, Registry, get_global_metronome, start_custom_metronome,
    start_metronome_with_eighth_notes, start_metronome_with_sixteenth_notes,
    start_metronome_with_subdivisions, start_metronome_with_time_signature,
    start_metronome_with_triplets, start_performance_metronome, start_practice_metronome,
    start_simple_metronome, stop_global_metronome,
};
pub use scheduler::{TickKind, TickState, ToneSpec};
pub use tone::{interleave_channels, render_samples};
pub use waveform::WaveType;
