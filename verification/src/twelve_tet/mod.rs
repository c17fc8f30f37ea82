//! Twelve-tone equal temperament: symbolic note spellings and the
//! twelve-class octave.

mod tone;

pub use tone::{spec_normal_accidental, spec_normal_tone, lemma_twelve_classes_complete, lemma_twelve_classes_step, twelve_classes, AccidentalSymbol, Tone, ToneSymbol, Twelve};
