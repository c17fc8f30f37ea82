//! The natural minor scale keyed on a tonic.

use vstd::prelude::*;

use super::Scale;
use crate::tonality::note::Tone;
use crate::tonality::Divided;

verus! {

/// A natural minor scale: a tonic, owning the tones whose forward distance
/// from it is a natural-minor distance.
#[derive(Debug, Clone)]
pub struct MinorScale(Tone);

impl MinorScale {
    /// The natural minor scale keyed on `key`.
    pub fn new(key: &Tone) -> (r: MinorScale)
        ensures
            r.spec_tonic() == *key,
    {
        MinorScale(*key)
    }
}

impl Scale for MinorScale {
    closed spec fn spec_tonic(&self) -> Tone {
        self.0
    }

    /// Membership by the natural-minor interval pattern: the forward
    /// distance from the tonic, modulo the octave, is one of 0, 2, 3, 5, 7,
    /// 8, 10.
    open spec fn spec_on_scale(&self, tone: Tone) -> bool {
        let d = (tone.spec_index() - self.spec_tonic().spec_index()) % 12;
        d == 0 || d == 2 || d == 3 || d == 5 || d == 7 || d == 8 || d == 10
    }

    fn tonic(&self) -> (t: &Tone)
        ensures
            *t == self.spec_tonic(),
    {
        &self.0
    }

    fn is_on_scale(&self, tone: &Tone) -> (r: bool)
        ensures
            r == self.spec_on_scale(*tone),
    {
        let a = Divided::index(&self.0);
        let b = Divided::index(tone);
        let d = (b + 12 - a) % 12;
        proof {
            vstd::arithmetic::div_mod::lemma_mod_add_multiples_vanish(b - a, 12);
        }
        d == 0 || d == 2 || d == 3 || d == 5 || d == 7 || d == 8 || d == 10
    }
}

} // verus!
