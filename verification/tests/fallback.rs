use kron::playback::{fallback_tone, first_attempt, next_attempt, AttemptOutcome, PlaybackAttempt};

#[test]
fn named_entry_starts_at_the_named_file() {
    assert_eq!(first_attempt(&Some("bell.wav".to_string())), PlaybackAttempt::Named);
}

#[test]
fn default_signal_starts_at_the_default_asset() {
    assert_eq!(first_attempt(&None), PlaybackAttempt::DefaultAsset);
}

#[test]
fn failed_named_file_falls_back_to_the_default_asset() {
    assert_eq!(
        next_attempt(PlaybackAttempt::Named, AttemptOutcome::OpenFailed),
        Some(PlaybackAttempt::DefaultAsset)
    );
    assert_eq!(
        next_attempt(PlaybackAttempt::Named, AttemptOutcome::DecodeFailed),
        Some(PlaybackAttempt::DefaultAsset)
    );
}

#[test]
fn failed_default_asset_falls_back_to_the_tone() {
    assert_eq!(
        next_attempt(PlaybackAttempt::DefaultAsset, AttemptOutcome::OpenFailed),
        Some(PlaybackAttempt::Tone)
    );
    assert_eq!(
        next_attempt(PlaybackAttempt::DefaultAsset, AttemptOutcome::DeviceFailed),
        Some(PlaybackAttempt::Tone)
    );
}

#[test]
fn success_ends_the_chain_at_every_step() {
    assert_eq!(next_attempt(PlaybackAttempt::Named, AttemptOutcome::Success), None);
    assert_eq!(next_attempt(PlaybackAttempt::DefaultAsset, AttemptOutcome::Success), None);
    assert_eq!(next_attempt(PlaybackAttempt::Tone, AttemptOutcome::Success), None);
}

#[test]
fn the_tone_is_the_last_resort() {
    assert_eq!(next_attempt(PlaybackAttempt::Tone, AttemptOutcome::DeviceFailed), None);
}

#[test]
fn tone_shape_is_fixed() {
    let tone = fallback_tone();
    assert_eq!(tone.frequency_hz, 440);
    assert_eq!(tone.duration_ms, 1000);
    assert_eq!(tone.amplitude_percent, 20);
}
