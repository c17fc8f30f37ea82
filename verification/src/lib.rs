//! A music-theory library built on a cyclic algebra of pitch classes.
//!
//! The heart of the crate is the `chroma` module: a finite cyclic group of
//! pitch classes, with tones identified by their step inside it. Scales are
//! interval formulas applied to a key tone, degrees index into scales, and
//! chords are degree collections resolved through a scale. The remaining
//! modules offer symbolic note spellings, keyboard-style octave layering,
//! parsing of note names, and simple scale detection.

pub mod base;
pub mod chord;
pub mod chroma;
pub mod detect;
pub mod parse;
pub mod scale;
pub mod tonality;
pub mod twelve_tet;
