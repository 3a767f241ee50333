//! Core logic of a minute-resolution chime scheduler: deciding which
//! configured sounds are due at a given local time, gating config re-reads on
//! file modification times, deduplicating evaluation per calendar minute, and
//! planning the playback fallback chain.  The host process supplies storage
//! rows, the clock, the config file's text and the audio device; everything
//! decided here is verified.

pub mod config;
pub mod dates;
pub mod model;
pub mod playback;
pub mod resolver;
pub mod tick;
