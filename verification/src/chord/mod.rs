//! Chords: qualities over a root, and chord-tone and avoid-tone derivation
//! against a scale.

mod chord;
mod tones;

pub use chord::{spec_quality_intervals, Chord, Quality};
pub use tones::{avoid_tones, chord_tones, spec_avoid_candidates, spec_avoid_prefix, spec_chord_step};
