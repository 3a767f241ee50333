//! The playback fallback chain, as a decision machine.  The host performs
//! each attempt (open, decode, play on the audio device, off the scheduling
//! thread) and reports its outcome; the machine says what to try next.

use vstd::prelude::*;

verus! {

/// What one playback attempt targets.
#[derive(Clone, Copy, Debug, PartialEq, Eq, Structural)]
pub enum PlaybackAttempt {
    /// The due entry's own named file.
    Named,
    /// The bundled default sound asset.
    DefaultAsset,
    /// The synthesized fallback tone, which needs no asset at all.
    Tone,
}

/// How one playback attempt ended.
#[derive(Clone, Copy, Debug, PartialEq, Eq, Structural)]
pub enum AttemptOutcome {
    Success,
    OpenFailed,
    DecodeFailed,
    DeviceFailed,
}

/// Where the chain starts: at the named file when the due entry names one,
/// else straight at the default asset.
pub open spec fn spec_first_attempt(entry: Option<Seq<char>>) -> PlaybackAttempt {
    if entry is Some {
        PlaybackAttempt::Named
    } else {
        PlaybackAttempt::DefaultAsset
    }
}

pub fn first_attempt(entry: &Option<String>) -> (r: PlaybackAttempt)
    ensures
        r == spec_first_attempt(entry.deep_view()),
{
    match entry {
        Some(_) => PlaybackAttempt::Named,
        None => PlaybackAttempt::DefaultAsset,
    }
}

/// What to try after an attempt: nothing after a success; after a failure,
/// the next step down the chain — named file to default asset, default
/// asset to tone.  A failed tone ends the chain too; the tone is synthesized
/// and treated as always available.
pub open spec fn spec_next_attempt(a: PlaybackAttempt, outcome: AttemptOutcome) -> Option<
    PlaybackAttempt,
> {
    if outcome == AttemptOutcome::Success {
        None
    } else {
        match a {
            PlaybackAttempt::Named => Some(PlaybackAttempt::DefaultAsset),
            PlaybackAttempt::DefaultAsset => Some(PlaybackAttempt::Tone),
            PlaybackAttempt::Tone => None,
        }
    }
}

pub fn next_attempt(a: PlaybackAttempt, outcome: AttemptOutcome) -> (r: Option<PlaybackAttempt>)
    ensures
        r == spec_next_attempt(a, outcome),
{
    if outcome == AttemptOutcome::Success {
        None
    } else {
        match a {
            PlaybackAttempt::Named => Some(PlaybackAttempt::DefaultAsset),
            PlaybackAttempt::DefaultAsset => Some(PlaybackAttempt::Tone),
            PlaybackAttempt::Tone => None,
        }
    }
}

/// The synthesized fallback tone's fixed shape, in integer units the host
/// scales for the audio device.
pub struct FallbackTone {
    pub frequency_hz: u32,
    pub duration_ms: u32,
    pub amplitude_percent: u32,
}

/// A 440 Hz sine wave, one second long, at a fifth of full scale.
pub fn fallback_tone() -> (r: FallbackTone)
    ensures
        r.frequency_hz == 440,
        r.duration_ms == 1000,
        r.amplitude_percent == 20,
{
    FallbackTone { frequency_hz: 440, duration_ms: 1000, amplitude_percent: 20 }
}

/// The fallback chain never skips a step: a failed named attempt falls back
/// to the default asset — never straight to the tone — and a failed default
/// attempt falls back to the tone, while any success ends the chain.
pub proof fn lemma_fallback_chain(outcome: AttemptOutcome)
    requires
        outcome != AttemptOutcome::Success,
    ensures
        spec_next_attempt(PlaybackAttempt::Named, outcome) == Some(PlaybackAttempt::DefaultAsset),
        spec_next_attempt(PlaybackAttempt::DefaultAsset, outcome) == Some(PlaybackAttempt::Tone),
        spec_next_attempt(PlaybackAttempt::Tone, outcome) is None,
{
}

/// A success at any step ends the chain.
pub proof fn lemma_success_ends_chain(a: PlaybackAttempt)
    ensures
        spec_next_attempt(a, AttemptOutcome::Success) is None,
{
}

} // verus!
