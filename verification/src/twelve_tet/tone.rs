//! Symbolic tones of twelve-tone equal temperament.
//!
//! A tone is spelt as a letter plus an accidental and normalizes on
//! construction: the four spellings that name a neighbouring natural
//! (C flat, E sharp, F flat, B sharp) collapse to that natural, so equal
//! pitch spellings compare equal whenever they share a canonical form.

use vstd::prelude::*;

use crate::base::{Cycle, Octave};

verus! {

/// The seven note letters.
#[derive(Debug, Clone, Copy, PartialEq, Eq, PartialOrd, Ord, Structural, Hash)]
pub enum ToneSymbol {
    C,
    D,
    E,
    F,
    G,
    A,
    B,
}

/// The accidental attached to a note letter.
#[derive(Debug, Clone, Copy, PartialEq, Eq, PartialOrd, Ord, Structural, Hash)]
pub enum AccidentalSymbol {
    Flat,
    Natural,
    Sharp,
}

/// The chromatic step of a bare letter: C stands on 0, D on 2, and so on up
/// to B on 11.
pub open spec fn spec_letter_base(t: ToneSymbol) -> int {
    match t {
        ToneSymbol::C => 0,
        ToneSymbol::D => 2,
        ToneSymbol::E => 4,
        ToneSymbol::F => 5,
        ToneSymbol::G => 7,
        ToneSymbol::A => 9,
        ToneSymbol::B => 11,
    }
}

/// How an accidental shifts a letter's step.
pub open spec fn spec_accidental_offset(a: AccidentalSymbol) -> int {
    match a {
        AccidentalSymbol::Flat => -1,
        AccidentalSymbol::Natural => 0,
        AccidentalSymbol::Sharp => 1,
    }
}

/// The letter a spelling normalizes to: the four enharmonic specials
/// (C flat, E sharp, F flat, B sharp) move to their neighbouring natural,
/// everything else keeps its letter.
pub open spec fn spec_normal_tone(t: ToneSymbol, a: AccidentalSymbol) -> ToneSymbol {
    match (t, a) {
        (ToneSymbol::C, AccidentalSymbol::Flat) => ToneSymbol::B,
        (ToneSymbol::E, AccidentalSymbol::Sharp) => ToneSymbol::F,
        (ToneSymbol::F, AccidentalSymbol::Flat) => ToneSymbol::E,
        (ToneSymbol::B, AccidentalSymbol::Sharp) => ToneSymbol::C,
        (_, _) => t,
    }
}

/// The accidental a spelling normalizes to: natural for the four enharmonic
/// specials, the spelling's own accidental otherwise.
pub open spec fn spec_normal_accidental(t: ToneSymbol, a: AccidentalSymbol) -> AccidentalSymbol {
    match (t, a) {
        (ToneSymbol::C, AccidentalSymbol::Flat) => AccidentalSymbol::Natural,
        (ToneSymbol::E, AccidentalSymbol::Sharp) => AccidentalSymbol::Natural,
        (ToneSymbol::F, AccidentalSymbol::Flat) => AccidentalSymbol::Natural,
        (ToneSymbol::B, AccidentalSymbol::Sharp) => AccidentalSymbol::Natural,
        (_, _) => a,
    }
}

/// A tone of twelve-tone equal temperament, spelt as letter plus accidental.
#[derive(Debug, Clone, Copy, PartialEq, Eq, PartialOrd, Ord, Structural, Hash)]
pub struct Tone {
    tone: ToneSymbol,
    accidental: AccidentalSymbol,
}

impl Tone {
    /// The letter, as seen by specifications.
    pub closed spec fn spec_tone(self) -> ToneSymbol {
        self.tone
    }

    /// The accidental, as seen by specifications.
    pub closed spec fn spec_accidental(self) -> AccidentalSymbol {
        self.accidental
    }

    /// Whether the tone is one of the twelve canonical classes: a natural
    /// or a sharp, excluding the enharmonic specials (so no flat spelling).
    pub open spec fn spec_is_canonical(self) -> bool {
        self.spec_is_normal() && self.spec_accidental() != AccidentalSymbol::Flat
    }

    /// Whether the spelling is canonical: none of the four enharmonic
    /// specials.
    pub open spec fn spec_is_normal(self) -> bool {
        spec_normal_tone(self.spec_tone(), self.spec_accidental()) == self.spec_tone()
            && spec_normal_accidental(self.spec_tone(), self.spec_accidental())
            == self.spec_accidental()
    }

    /// The chromatic step the spelling stands on, in `[0, 12)`: the letter's
    /// step shifted by the accidental, wrapped around the octave.
    pub open spec fn spec_step(self) -> int {
        (spec_letter_base(self.spec_tone()) + spec_accidental_offset(self.spec_accidental())
            + 12) % 12
    }

    /// Builds the tone spelt `tone` + `accidental`, normalized: C flat
    /// becomes B, E sharp becomes F, F flat becomes E, and B sharp becomes C.
    pub fn new(tone: ToneSymbol, accidental: AccidentalSymbol) -> (r: Tone)
        ensures
            r.spec_tone() == spec_normal_tone(tone, accidental),
            r.spec_accidental() == spec_normal_accidental(tone, accidental),
            r.spec_is_normal(),
            r.spec_step() == (spec_letter_base(tone) + spec_accidental_offset(accidental) + 12)
                % 12,
    {
        match (tone, accidental) {
            (ToneSymbol::C, AccidentalSymbol::Flat) => Tone {
                tone: ToneSymbol::B,
                accidental: AccidentalSymbol::Natural,
            },
            (ToneSymbol::E, AccidentalSymbol::Sharp) => Tone {
                tone: ToneSymbol::F,
                accidental: AccidentalSymbol::Natural,
            },
            (ToneSymbol::F, AccidentalSymbol::Flat) => Tone {
                tone: ToneSymbol::E,
                accidental: AccidentalSymbol::Natural,
            },
            (ToneSymbol::B, AccidentalSymbol::Sharp) => Tone {
                tone: ToneSymbol::C,
                accidental: AccidentalSymbol::Natural,
            },
            (t, a) => Tone { tone: t, accidental: a },
        }
    }

    /// The letter of the (normalized) spelling.
    pub fn tone(&self) -> (t: &ToneSymbol)
        ensures
            *t == self.spec_tone(),
    {
        &self.tone
    }

    /// The accidental of the (normalized) spelling.
    pub fn accidental(&self) -> (a: &AccidentalSymbol)
        ensures
            *a == self.spec_accidental(),
    {
        &self.accidental
    }

    /// The chromatic step the tone stands on, in `[0, 12)`.
    pub fn step(&self) -> (s: usize)
        ensures
            s == self.spec_step(),
            s < 12,
    {
        let base: usize = match self.tone {
            ToneSymbol::C => 0,
            ToneSymbol::D => 2,
            ToneSymbol::E => 4,
            ToneSymbol::F => 5,
            ToneSymbol::G => 7,
            ToneSymbol::A => 9,
            ToneSymbol::B => 11,
        };
        let shift: usize = match self.accidental {
            AccidentalSymbol::Flat => 0,
            AccidentalSymbol::Natural => 1,
            AccidentalSymbol::Sharp => 2,
        };
        (base + shift + 11) % 12
    }
}

/// The twelve canonical tones in step order: the naturals interleaved with
/// the sharp spellings of the five black keys.
pub closed spec fn twelve_classes() -> Seq<Tone> {
    seq![
        Tone { tone: ToneSymbol::C, accidental: AccidentalSymbol::Natural },
        Tone { tone: ToneSymbol::C, accidental: AccidentalSymbol::Sharp },
        Tone { tone: ToneSymbol::D, accidental: AccidentalSymbol::Natural },
        Tone { tone: ToneSymbol::D, accidental: AccidentalSymbol::Sharp },
        Tone { tone: ToneSymbol::E, accidental: AccidentalSymbol::Natural },
        Tone { tone: ToneSymbol::F, accidental: AccidentalSymbol::Natural },
        Tone { tone: ToneSymbol::F, accidental: AccidentalSymbol::Sharp },
        Tone { tone: ToneSymbol::G, accidental: AccidentalSymbol::Natural },
        Tone { tone: ToneSymbol::G, accidental: AccidentalSymbol::Sharp },
        Tone { tone: ToneSymbol::A, accidental: AccidentalSymbol::Natural },
        Tone { tone: ToneSymbol::A, accidental: AccidentalSymbol::Sharp },
        Tone { tone: ToneSymbol::B, accidental: AccidentalSymbol::Natural },
    ]
}

/// The canonical class on each step stands exactly on that step, and is a
/// natural or a sharp.
pub proof fn lemma_twelve_classes_step(i: int)
    requires
        0 <= i < 12,
    ensures
        twelve_classes().len() == 12,
        twelve_classes()[i].spec_step() == i,
        twelve_classes()[i].spec_is_canonical(),
{
}

/// Every canonical tone is the class of its own step.
pub proof fn lemma_twelve_classes_complete(t: Tone)
    requires
        t.spec_is_canonical(),
    ensures
        0 <= t.spec_step() < 12,
        twelve_classes()[t.spec_step()] == t,
{
    let tn = t.spec_tone();
    let ac = t.spec_accidental();
    assert(t == Tone { tone: tn, accidental: ac });
    match (tn, ac) {
        (ToneSymbol::C, AccidentalSymbol::Natural) => assert(twelve_classes()[0] == t),
        (ToneSymbol::C, AccidentalSymbol::Sharp) => assert(twelve_classes()[1] == t),
        (ToneSymbol::D, AccidentalSymbol::Natural) => assert(twelve_classes()[2] == t),
        (ToneSymbol::D, AccidentalSymbol::Sharp) => assert(twelve_classes()[3] == t),
        (ToneSymbol::E, AccidentalSymbol::Natural) => assert(twelve_classes()[4] == t),
        (ToneSymbol::F, AccidentalSymbol::Natural) => assert(twelve_classes()[5] == t),
        (ToneSymbol::F, AccidentalSymbol::Sharp) => assert(twelve_classes()[6] == t),
        (ToneSymbol::G, AccidentalSymbol::Natural) => assert(twelve_classes()[7] == t),
        (ToneSymbol::G, AccidentalSymbol::Sharp) => assert(twelve_classes()[8] == t),
        (ToneSymbol::A, AccidentalSymbol::Natural) => assert(twelve_classes()[9] == t),
        (ToneSymbol::A, AccidentalSymbol::Sharp) => assert(twelve_classes()[10] == t),
        (ToneSymbol::B, AccidentalSymbol::Natural) => assert(twelve_classes()[11] == t),
        (_, _) => assert(false),
    }
}

/// The octave of the twelve canonical tones.
#[derive(Debug, Clone, Copy, PartialEq, Eq, Structural)]
pub struct Twelve;

impl Octave for Twelve {
    type Class = Tone;

    open spec fn classes(&self) -> Seq<Tone> {
        twelve_classes()
    }

    open spec fn wf(&self) -> bool {
        true
    }

    fn len(&self) -> (n: usize)
        ensures
            n == self.classes().len(),
    {
        12
    }

    fn get_class(&self, number: &Cycle) -> (c: Tone)
        ensures
            c == self.classes()[number.spec_inner() as int % self.classes().len() as int],
    {
        let idx = number.value();
        let c = match idx {
            0 => Tone { tone: ToneSymbol::C, accidental: AccidentalSymbol::Natural },
            1 => Tone { tone: ToneSymbol::C, accidental: AccidentalSymbol::Sharp },
            2 => Tone { tone: ToneSymbol::D, accidental: AccidentalSymbol::Natural },
            3 => Tone { tone: ToneSymbol::D, accidental: AccidentalSymbol::Sharp },
            4 => Tone { tone: ToneSymbol::E, accidental: AccidentalSymbol::Natural },
            5 => Tone { tone: ToneSymbol::F, accidental: AccidentalSymbol::Natural },
            6 => Tone { tone: ToneSymbol::F, accidental: AccidentalSymbol::Sharp },
            7 => Tone { tone: ToneSymbol::G, accidental: AccidentalSymbol::Natural },
            8 => Tone { tone: ToneSymbol::G, accidental: AccidentalSymbol::Sharp },
            9 => Tone { tone: ToneSymbol::A, accidental: AccidentalSymbol::Natural },
            10 => Tone { tone: ToneSymbol::A, accidental: AccidentalSymbol::Sharp },
            _ => Tone { tone: ToneSymbol::B, accidental: AccidentalSymbol::Natural },
        };
        c
    }

    fn get_number(&self, class: &Tone) -> (r: Option<usize>)
        ensures
            match r {
                Some(i) => i < self.classes().len() && self.classes()[i as int] == *class
                    && (forall|j: int| 0 <= j < i ==> self.classes()[j] != *class),
                None => forall|j: int| 0 <= j < self.classes().len() ==> self.classes()[j]
                    != *class,
            },
    {
        let canonical = match (class.tone(), class.accidental()) {
            (_, AccidentalSymbol::Flat) => false,
            (ToneSymbol::E, AccidentalSymbol::Sharp) => false,
            (ToneSymbol::B, AccidentalSymbol::Sharp) => false,
            (_, _) => true,
        };
        if canonical {
            let s = class.step();
            proof {
                lemma_twelve_classes_complete(*class);
                assert forall|j: int| 0 <= j < s implies twelve_classes()[j] != *class by {
                    lemma_twelve_classes_step(j);
                }
            }
            Some(s)
        } else {
            proof {
                assert forall|j: int| 0 <= j < 12 implies twelve_classes()[j] != *class by {
                    lemma_twelve_classes_step(j);
                }
            }
            None
        }
    }

    fn class_eq(a: &Tone, b: &Tone) -> (r: bool)
        ensures
            r == (a == b),
    {
        *a == *b
    }
}

} // verus!
