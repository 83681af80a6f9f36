//! Tests for the accent configuration presets and builders.

use metronome_rs::{AccentConfig, WaveType};

#[test]
fn test_accent_config_presets() {
    let default_config = AccentConfig::default();
    assert_eq!(default_config.accent_frequency, 88000);
    assert_eq!(default_config.regular_frequency, 44000);

    let subtle_config = AccentConfig::subtle();
    assert_eq!(subtle_config.accent_frequency, 66000);

    let strong_config = AccentConfig::strong();
    assert_eq!(strong_config.accent_frequency, 176000);
    assert_eq!(strong_config.accent_duration, 200);
}

#[test]
fn test_wave_type_configurations() {
    // Default wave shape.
    let default_config = AccentConfig::default();
    assert_eq!(default_config.accent_wave_type, WaveType::Sine);
    assert_eq!(default_config.regular_wave_type, WaveType::Sine);

    // Single wave shape configuration.
    let square_config = AccentConfig::with_wave_type(WaveType::Square);
    assert_eq!(square_config.accent_wave_type, WaveType::Square);
    assert_eq!(square_config.regular_wave_type, WaveType::Square);

    // Mixed wave shape configuration.
    let mixed_config = AccentConfig::with_wave_types(WaveType::Triangle, WaveType::Sawtooth);
    assert_eq!(mixed_config.accent_wave_type, WaveType::Triangle);
    assert_eq!(mixed_config.regular_wave_type, WaveType::Sawtooth);

    // Preset configurations.
    let strong_square_config = AccentConfig::strong_square();
    assert_eq!(strong_square_config.accent_wave_type, WaveType::Square);
    assert_eq!(strong_square_config.regular_wave_type, WaveType::Sine);

    let subtle_triangle_config = AccentConfig::subtle_triangle();
    assert_eq!(subtle_triangle_config.accent_wave_type, WaveType::Triangle);
    assert_eq!(subtle_triangle_config.regular_wave_type, WaveType::Triangle);
}

#[test]
fn test_preset_round_trip() {
    // Every named preset reads back its documented literal values.
    assert_eq!(WaveType::default(), WaveType::Sine);

    let default_config = AccentConfig::default();
    assert_eq!(default_config.accent_duration, 150);
    assert_eq!(default_config.regular_duration, 100);
    assert_eq!(default_config.subdivisions, 1);
    assert_eq!(default_config.subdivision_frequency, 52325);
    assert_eq!(default_config.subdivision_duration, 80);
    assert_eq!(default_config.subdivision_wave_type, WaveType::Sine);
    assert_eq!(default_config.subdivision_volume, 700);

    let subtle = AccentConfig::subtle();
    assert_eq!(subtle.regular_frequency, 44000);
    assert_eq!(subtle.accent_duration, 120);
    assert_eq!(subtle.regular_duration, 100);

    let strong = AccentConfig::strong();
    assert_eq!(strong.regular_frequency, 44000);
    assert_eq!(strong.regular_duration, 80);
    assert_eq!(strong.subdivisions, 1);

    let eighth = AccentConfig::with_eighth_notes();
    assert_eq!(eighth.subdivisions, 2);
    assert_eq!(eighth.subdivision_frequency, 58733);
    assert_eq!(eighth.subdivision_duration, 70);
    assert_eq!(eighth.subdivision_volume, 650);

    let sixteenth = AccentConfig::with_sixteenth_notes();
    assert_eq!(sixteenth.subdivisions, 4);
    assert_eq!(sixteenth.subdivision_frequency, 65925);
    assert_eq!(sixteenth.subdivision_wave_type, WaveType::Square);
    assert_eq!(sixteenth.subdivision_volume, 550);

    let triplets = AccentConfig::with_triplets();
    assert_eq!(triplets.subdivisions, 3);
    assert_eq!(triplets.subdivision_frequency, 52325);
    assert_eq!(triplets.subdivision_duration, 65);
    assert_eq!(triplets.subdivision_wave_type, WaveType::Triangle);
    assert_eq!(triplets.subdivision_volume, 600);

    let practice = AccentConfig::practice_subdivisions();
    assert_eq!(practice.subdivisions, 2);
    assert_eq!(practice.subdivision_frequency, 58733);
    assert_eq!(practice.subdivision_volume, 750);

    let technical = AccentConfig::technical_subdivisions();
    assert_eq!(technical.accent_frequency, 104650);
    assert_eq!(technical.regular_frequency, 52325);
    assert_eq!(technical.accent_wave_type, WaveType::Square);
    assert_eq!(technical.subdivisions, 4);
    assert_eq!(technical.subdivision_frequency, 69846);
    assert_eq!(technical.subdivision_volume, 600);
}

#[test]
fn test_constructors_and_builders() {
    let basic = AccentConfig::new(99000, 55000, 130, 90, WaveType::Square, WaveType::Triangle);
    assert_eq!(basic.accent_frequency, 99000);
    assert_eq!(basic.regular_frequency, 55000);
    assert_eq!(basic.accent_duration, 130);
    assert_eq!(basic.regular_duration, 90);
    assert_eq!(basic.accent_wave_type, WaveType::Square);
    assert_eq!(basic.regular_wave_type, WaveType::Triangle);
    assert_eq!(basic.subdivisions, 1);

    let with_subs = AccentConfig::with_subdivisions(88000, 44000, 5, 33000);
    assert_eq!(with_subs.subdivisions, 5);
    assert_eq!(with_subs.subdivision_frequency, 33000);
    assert_eq!(with_subs.subdivision_duration, 70);
    assert_eq!(with_subs.subdivision_volume, 650);

    let custom = AccentConfig::with_custom_subdivisions(7, 30000, 450);
    assert_eq!(custom.subdivisions, 7);
    assert_eq!(custom.subdivision_frequency, 30000);
    assert_eq!(custom.subdivision_volume, 450);

    let built = AccentConfig::default()
        .set_subdivisions(3)
        .set_subdivision_frequency(40000)
        .set_subdivision_volume(500)
        .set_subdivision_wave_type(WaveType::Sawtooth);
    assert_eq!(built.subdivisions, 3);
    assert_eq!(built.subdivision_frequency, 40000);
    assert_eq!(built.subdivision_volume, 500);
    assert_eq!(built.subdivision_wave_type, WaveType::Sawtooth);
    // Untouched fields keep their defaults.
    assert_eq!(built.accent_frequency, 88000);
    assert_eq!(built.regular_duration, 100);
}
