//! Keyboard-style building blocks: note numbers, cyclic counters, pitches
//! with octaves, intervals, degrees, and octave/scale layering.

mod chord;
mod distance;
mod keyboard;
mod number;
mod pitch;

pub use chord::Chord;
pub use distance::{lemma_degree_eq, lemma_degree_from_value, Degree, DegreeConstructError, Interval};
pub use keyboard::{
    first_index_of, lemma_class_number_cyclic, lemma_first_index_of_none,
    lemma_first_index_of_props, lemma_first_index_of_some, ClassIter, Distance, Keyboard, Octave,
    Scale, Scaled,
};
pub use number::{Cycle, Number};
pub use pitch::{lemma_pitch_eq, Pitch};
