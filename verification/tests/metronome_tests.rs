//! Tests for the metronome entity and the playback registry.

use metronome_rs::{
    get_global_metronome, start_custom_metronome, start_metronome_with_eighth_notes,
    start_metronome_with_sixteenth_notes, start_metronome_with_subdivisions,
    start_metronome_with_time_signature, start_metronome_with_triplets,
    start_performance_metronome, start_practice_metronome, start_simple_metronome,
    stop_global_metronome, AccentConfig, Metronome, Registry, WaveType,
};

#[test]
fn test_metronome_creation() {
    let mut registry = Registry::new();
    let metronome = Metronome::with_device_config(12000, Some(4), 44100, 2, &mut registry);
    assert_eq!(metronome.bpm(), 12000);
    assert_eq!(metronome.beats_per_measure(), Some(4));
    assert!(!metronome.is_playing(&registry));
}

#[test]
fn test_accent_configuration() {
    let mut registry = Registry::new();
    let mut metronome = Metronome::with_device_config(12000, Some(4), 44100, 2, &mut registry);
    metronome.set_accent_config(AccentConfig::strong());

    // The accent config is properly set.
    assert_eq!(metronome.accent_config().accent_frequency, 176000);
    assert_eq!(metronome.accent_config().regular_frequency, 44000);
    assert_eq!(metronome.accent_config().accent_duration, 200);
    assert_eq!(metronome.accent_config().regular_duration, 80);
}

#[test]
fn test_metronome_start_stop_simple() {
    let mut registry = Registry::new();
    let metronome = Metronome::with_device_config(12000, None, 44100, 2, &mut registry);

    let prev = metronome.start(&mut registry);
    assert_eq!(prev, None);
    assert!(metronome.is_playing(&registry));

    metronome.stop(&mut registry);
    assert!(!metronome.is_playing(&registry));
    assert!(get_global_metronome(&registry).is_none());
}

#[test]
fn test_global_metronome_singleton() {
    let mut registry = Registry::new();

    // Start clean.
    stop_global_metronome(&mut registry);

    let metronome1 = Metronome::with_device_config(12000, None, 44100, 2, &mut registry);
    let metronome2 = Metronome::with_device_config(14000, Some(3), 44100, 2, &mut registry);

    // Start the first metronome.
    let prev = metronome1.start(&mut registry);
    assert_eq!(prev, None);
    assert!(metronome1.is_playing(&registry));

    // Starting the second preempts the first.
    let prev = metronome2.start(&mut registry);
    assert_eq!(prev, Some(metronome1.id));
    assert!(!metronome1.is_playing(&registry));
    assert!(metronome2.is_playing(&registry));

    // Stop everything.
    let stopped = stop_global_metronome(&mut registry);
    assert!(stopped.is_some());
    assert!(!metronome2.is_playing(&registry));
}

#[test]
fn test_stop_all_without_active_metronome() {
    // stop_global_metronome with nothing active is a no-op: no error, no
    // holder handed back, and a second call behaves the same.
    let mut registry = Registry::new();
    assert_eq!(stop_global_metronome(&mut registry), None);
    assert!(get_global_metronome(&registry).is_none());
    assert_eq!(stop_global_metronome(&mut registry), None);
    assert!(get_global_metronome(&registry).is_none());
}

#[test]
fn test_stop_other_keeps_current() {
    // Stopping a metronome that is not the registered holder leaves the
    // holder playing.
    let mut registry = Registry::new();
    let playing = Metronome::with_device_config(12000, None, 44100, 2, &mut registry);
    let other = Metronome::with_device_config(9000, None, 44100, 2, &mut registry);

    playing.start(&mut registry);
    other.stop(&mut registry);
    assert!(playing.is_playing(&registry));
    assert!(!other.is_playing(&registry));
}

#[test]
fn test_get_global_metronome() {
    let mut registry = Registry::new();
    assert!(get_global_metronome(&registry).is_none());

    let metronome = Metronome::with_device_config(10000, Some(4), 48000, 2, &mut registry);
    metronome.start(&mut registry);
    let current = get_global_metronome(&registry).unwrap();
    assert_eq!(current.bpm(), 10000);
    assert_eq!(current.beats_per_measure(), Some(4));
}

#[test]
fn test_setters() {
    let mut registry = Registry::new();
    let mut metronome = Metronome::with_device_config(12000, None, 44100, 2, &mut registry);

    metronome.set_bpm(9000);
    assert_eq!(metronome.bpm(), 9000);

    metronome.set_beats_per_measure(Some(3));
    assert_eq!(metronome.beats_per_measure(), Some(3));
    metronome.set_beats_per_measure(None);
    assert_eq!(metronome.beats_per_measure(), None);
}

#[test]
fn test_high_level_helper_functions() {
    let mut registry = Registry::new();

    // Ensure clean state.
    stop_global_metronome(&mut registry);

    // Simple metronome helper.
    let (simple, _) = start_simple_metronome(12000, 44100, 2, &mut registry);
    assert!(simple.is_playing(&registry));
    assert_eq!(simple.beats_per_measure(), None);
    stop_global_metronome(&mut registry);

    // Time signature helper.
    let (timed, _) = start_metronome_with_time_signature(10000, 4, 44100, 2, &mut registry);
    assert!(timed.is_playing(&registry));
    assert_eq!(timed.beats_per_measure(), Some(4));
    stop_global_metronome(&mut registry);

    // Practice metronome helper: subtle accents.
    let (practice, _) = start_practice_metronome(8000, 3, 44100, 2, &mut registry);
    assert!(practice.is_playing(&registry));
    assert_eq!(practice.accent_config().accent_frequency, 66000);
    stop_global_metronome(&mut registry);

    // Performance metronome helper: strong accents.
    let (performance, _) = start_performance_metronome(9000, 4, 44100, 2, &mut registry);
    assert!(performance.is_playing(&registry));
    assert_eq!(performance.accent_config().accent_frequency, 176000);
    stop_global_metronome(&mut registry);
    assert!(!performance.is_playing(&registry));
}

#[test]
fn test_subdivision_helper_functions() {
    let mut registry = Registry::new();

    let (eighth, _) = start_metronome_with_eighth_notes(10000, Some(4), 44100, 2, &mut registry);
    assert_eq!(eighth.accent_config().subdivisions, 2);

    let (sixteenth, prev) =
        start_metronome_with_sixteenth_notes(8000, Some(4), 44100, 2, &mut registry);
    assert_eq!(sixteenth.accent_config().subdivisions, 4);
    // The eighth-note metronome was preempted.
    assert!(prev.is_some());
    assert!(!eighth.is_playing(&registry));

    let (triplets, _) = start_metronome_with_triplets(9000, Some(4), 44100, 2, &mut registry);
    assert_eq!(triplets.accent_config().subdivisions, 3);

    let (custom, _) =
        start_metronome_with_subdivisions(10000, Some(4), 5, 300, 44100, 2, &mut registry);
    assert_eq!(custom.accent_config().subdivisions, 5);
    assert_eq!(custom.accent_config().subdivision_volume, 300);
    assert_eq!(custom.accent_config().subdivision_frequency, 33000);
    assert!(custom.is_playing(&registry));
}

#[test]
fn test_metronome_with_wave_types() {
    let mut registry = Registry::new();
    let config = AccentConfig::with_wave_type(WaveType::Square);
    let (metronome, prev) =
        start_custom_metronome(11000, Some(4), config, 48000, 2, &mut registry);
    assert_eq!(prev, None);
    assert!(metronome.is_playing(&registry));
    assert_eq!(metronome.accent_config().accent_wave_type, WaveType::Square);
    assert_eq!(metronome.accent_config().regular_wave_type, WaveType::Square);
}
