//! Note letters and spelt tones, with transposition around their cycles.

mod symbol;
mod tone;

pub use symbol::{AccidentalSymbol, ToneSymbol};
pub use tone::{
    lemma_canon_spelling, lemma_tone_spelling_eq, lemma_transpose_index, spec_canon_accidental,
    spec_canon_letter, Tone, ToneIter,
};

use vstd::prelude::*;

verus! {

/// A value living on a finite cycle of positions.
pub trait Divided: Sized {
    /// The cycle's size, as seen by specifications.
    spec fn spec_divided() -> int;

    /// The position on the cycle, as seen by specifications.
    spec fn spec_index(&self) -> int;

    /// The cycle's size.
    fn num_devided() -> (n: usize)
        ensures
            n == Self::spec_divided(),
    ;

    /// The position on the cycle.
    fn index(&self) -> (i: usize)
        ensures
            i == self.spec_index(),
    ;
}

/// A value that can be moved around its cycle.
pub trait Pitch: Divided {
    /// The canonical value on position `i` of the cycle.
    spec fn spec_canon(i: int) -> Self;

    /// The value `t` positions further around the cycle, wrapping in either
    /// direction with the floored modulo.
    fn transpose(self, t: i32) -> (r: Self)
        ensures
            r == Self::spec_canon((self.spec_index() + t) % Self::spec_divided()),
    ;
}

} // verus!
