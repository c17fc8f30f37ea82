//! An alternative symbolic layer: note spellings with their own equality and
//! order by pitch class, and scales walked as tone streams.

mod note;
pub mod scale;

pub use note::{
    lemma_canon_spelling, lemma_tone_spelling_eq, lemma_transpose_index, spec_canon_accidental,
    spec_canon_letter, AccidentalSymbol, Divided, Pitch, Tone, ToneIter, ToneSymbol,
};
pub use scale::{Degree, IntoScaler, MajorScale, MinorScale, Scale, Scaler};
