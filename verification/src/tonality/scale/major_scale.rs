//! The major scale keyed on a tonic.

use vstd::prelude::*;

use super::Scale;
use crate::tonality::note::Tone;
use crate::tonality::Divided;

verus! {

/// A major scale: a tonic, owning the tones whose forward distance from it
/// is a major-scale distance.
#[derive(Debug, Clone)]
pub struct MajorScale(Tone);

impl MajorScale {
    /// The major scale keyed on `key`.
    pub fn new(key: &Tone) -> (r: MajorScale)
        ensures
            r.spec_tonic() == *key,
    {
        MajorScale(*key)
    }
}

impl Scale for MajorScale {
    closed spec fn spec_tonic(&self) -> Tone {
        self.0
    }

    /// Membership by the major interval pattern: the forward distance from
    /// the tonic, modulo the octave, is one of 0, 2, 4, 5, 7, 9, 11.
    open spec fn spec_on_scale(&self, tone: Tone) -> bool {
        let d = (tone.spec_index() - self.spec_tonic().spec_index()) % 12;
        d == 0 || d == 2 || d == 4 || d == 5 || d == 7 || d == 9 || d == 11
    }

    fn tonic(&self) -> (t: &Tone)
        ensures
            *t == self.spec_tonic(),
    {
        &self.0
    }

    fn is_on_scale(&self, tone: &Tone) -> (r: bool)
        ensures
            r == self.spec_on_scale(*tone),
    {
        let a = Divided::index(&self.0);
        let b = Divided::index(tone);
        let d = (b + 12 - a) % 12;
        proof {
            vstd::arithmetic::div_mod::lemma_mod_add_multiples_vanish(b - a, 12);
        }
        d == 0 || d == 2 || d == 4 || d == 5 || d == 7 || d == 9 || d == 11
    }
}

} // verus!
