//! A pitch: a pitch class together with the octave it sounds in.

use vstd::prelude::*;

verus! {

/// A pitch class `class` sounding in octave `oct`.
#[derive(Debug, Clone, Copy, PartialEq, Eq, Structural)]
pub struct Pitch<T> {
    class: T,
    oct: usize,
}

impl<T> Pitch<T> {
    /// The pitch class, as seen by specifications.
    pub closed spec fn spec_class(self) -> T {
        self.class
    }

    /// The octave, as seen by specifications.
    pub closed spec fn spec_oct(self) -> usize {
        self.oct
    }

    /// A pitch of class `class` in octave `oct`.
    pub fn new(class: T, oct: usize) -> (p: Pitch<T>)
        ensures
            p.spec_class() == class,
            p.spec_oct() == oct,
    {
        Pitch { class, oct }
    }

    /// The pitch class.
    pub fn class(&self) -> (c: &T)
        ensures
            *c == self.spec_class(),
    {
        &self.class
    }

    /// The octave.
    pub fn oct(&self) -> (o: usize)
        ensures
            o == self.spec_oct(),
    {
        self.oct
    }

    /// The same pitch, borrowing its class.
    pub fn as_ref(&self) -> (p: Pitch<&T>)
        ensures
            *p.spec_class() == self.spec_class(),
            p.spec_oct() == self.spec_oct(),
    {
        Pitch { class: &self.class, oct: self.oct }
    }
}

/// Two pitches that agree on class and octave are the same pitch.
pub proof fn lemma_pitch_eq<T>(a: Pitch<T>, b: Pitch<T>)
    requires
        a.spec_class() == b.spec_class(),
        a.spec_oct() == b.spec_oct(),
    ensures
        a == b,
{
}

} // verus!
