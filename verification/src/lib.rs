//! Core of a SoundFont (SF2) MIDI synthesizer.
//!
//! The crate parses a RIFF `sfbk` soundfont into an immutable bank of
//! presets, instruments and samples, and drives the control plane of a
//! polyphonic synthesizer: per-channel MIDI state, envelope stage
//! scheduling, voice allocation and stealing. Every function here is
//! verified; the floating-point signal path (oscillators, filters and
//! mixing) lives outside the library and consumes the integer state
//! exposed here.

pub mod binary;
pub mod channel;
pub mod envelope;
pub mod error;
pub mod generator;
pub mod info;
pub mod instrument;
pub mod lfo;
pub mod parameters;
pub mod preset;
pub mod region;
pub mod sample_data;
pub mod sample_header;
pub mod settings;
pub mod soundfont;
pub mod synthesizer;
pub mod text;
pub mod version;
pub mod voice;
pub mod zone;
