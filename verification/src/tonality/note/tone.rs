//! Spelt tones: a letter plus an accidental, compared by pitch class.
//!
//! Construction normalizes the four enharmonic specials (C flat, E sharp,
//! F flat, B sharp) to their neighbouring natural. Equality and order ignore
//! the remaining spelling differences: D flat and C sharp stand on the same
//! chromatic index and compare equal.

use core::cmp::Ordering;

use vstd::prelude::*;

use super::symbol::{AccidentalSymbol, ToneSymbol};
use super::{Divided, Pitch};

verus! {

/// The chromatic step of a bare letter: C stands on 0, D on 2, and so on up
/// to B on 11.
pub open spec fn spec_letter_chroma(t: ToneSymbol) -> int {
    match t {
        ToneSymbol::C => 0,
        ToneSymbol::D => 2,
        ToneSymbol::E => 4,
        ToneSymbol::F => 5,
        ToneSymbol::G => 7,
        ToneSymbol::A => 9,
        ToneSymbol::B => 11,
    }
}

/// How an accidental shifts a letter's chromatic step.
pub open spec fn spec_accidental_shift(a: AccidentalSymbol) -> int {
    match a {
        AccidentalSymbol::Flat => -1,
        AccidentalSymbol::Natural => 0,
        AccidentalSymbol::Sharp => 1,
    }
}

/// The letter a spelling normalizes to: the four enharmonic specials move to
/// their neighbouring natural, everything else keeps its letter.
pub open spec fn spec_normalize_letter(t: ToneSymbol, a: AccidentalSymbol) -> ToneSymbol {
    match (t, a) {
        (ToneSymbol::C, AccidentalSymbol::Flat) => ToneSymbol::B,
        (ToneSymbol::E, AccidentalSymbol::Sharp) => ToneSymbol::F,
        (ToneSymbol::F, AccidentalSymbol::Flat) => ToneSymbol::E,
        (ToneSymbol::B, AccidentalSymbol::Sharp) => ToneSymbol::C,
        (_, _) => t,
    }
}

/// The accidental a spelling normalizes to: natural for the four enharmonic
/// specials, the spelling's own accidental otherwise.
pub open spec fn spec_normalize_accidental(t: ToneSymbol, a: AccidentalSymbol) -> AccidentalSymbol {
    match (t, a) {
        (ToneSymbol::C, AccidentalSymbol::Flat) => AccidentalSymbol::Natural,
        (ToneSymbol::E, AccidentalSymbol::Sharp) => AccidentalSymbol::Natural,
        (ToneSymbol::F, AccidentalSymbol::Flat) => AccidentalSymbol::Natural,
        (ToneSymbol::B, AccidentalSymbol::Sharp) => AccidentalSymbol::Natural,
        (_, _) => a,
    }
}

/// A spelt tone: a letter plus an accidental, normalized on construction.
#[derive(Debug, Clone, Copy, Hash)]
pub struct Tone {
    tone: ToneSymbol,
    accidental: AccidentalSymbol,
}

impl Tone {
    /// Every tone keeps a normalized spelling: none of the four enharmonic
    /// specials.
    #[verifier::type_invariant]
    pub closed spec fn spec_is_normal(self) -> bool {
        spec_normalize_letter(self.spec_tone(), self.spec_accidental()) == self.spec_tone()
            && spec_normalize_accidental(self.spec_tone(), self.spec_accidental())
            == self.spec_accidental()
    }

    /// The letter, as seen by specifications.
    pub closed spec fn spec_tone(self) -> ToneSymbol {
        self.tone
    }

    /// The accidental, as seen by specifications.
    pub closed spec fn spec_accidental(self) -> AccidentalSymbol {
        self.accidental
    }

    /// Builds the tone spelt `tone` + `accidental`, normalized: C flat
    /// becomes B, E sharp becomes F, F flat becomes E, and B sharp becomes C.
    pub fn new(tone: ToneSymbol, accidental: AccidentalSymbol) -> (r: Tone)
        ensures
            r.spec_tone() == spec_normalize_letter(tone, accidental),
            r.spec_accidental() == spec_normalize_accidental(tone, accidental),
            r.spec_index() == (spec_letter_chroma(tone) + spec_accidental_shift(accidental) + 12)
                % 12,
    {
        match (tone, accidental) {
            (ToneSymbol::C, AccidentalSymbol::Flat) => Tone {
                tone: ToneSymbol::B,
                accidental: AccidentalSymbol::Natural,
            },
            (ToneSymbol::E, AccidentalSymbol::Sharp) => Tone {
                tone: ToneSymbol::F,
                accidental: AccidentalSymbol::Natural,
            },
            (ToneSymbol::F, AccidentalSymbol::Flat) => Tone {
                tone: ToneSymbol::E,
                accidental: AccidentalSymbol::Natural,
            },
            (ToneSymbol::B, AccidentalSymbol::Sharp) => Tone {
                tone: ToneSymbol::C,
                accidental: AccidentalSymbol::Natural,
            },
            (t, a) => Tone { tone: t, accidental: a },
        }
    }

    /// The letter of the (normalized) spelling.
    pub fn tone(&self) -> (t: &ToneSymbol)
        ensures
            *t == self.spec_tone(),
    {
        &self.tone
    }

    /// The accidental of the (normalized) spelling.
    pub fn accidental(&self) -> (a: &AccidentalSymbol)
        ensures
            *a == self.spec_accidental(),
    {
        &self.accidental
    }

    /// Respells a sharp tone with a flat and a flat tone with a sharp,
    /// keeping the pitch class; naturals stay as they are.
    pub fn flip_accidential(self) -> (r: Tone)
        ensures
            r.spec_index() == self.spec_index(),
            self.spec_accidental() == AccidentalSymbol::Natural ==> r == self,
            self.spec_accidental() == AccidentalSymbol::Sharp ==> r.spec_accidental()
                == AccidentalSymbol::Flat,
            self.spec_accidental() == AccidentalSymbol::Flat ==> r.spec_accidental()
                == AccidentalSymbol::Sharp,
    {
        proof {
            use_type_invariant(&self);
        }
        match self.accidental {
            AccidentalSymbol::Flat => self.into_accidental_sharp(),
            AccidentalSymbol::Natural => self,
            AccidentalSymbol::Sharp => self.into_accidental_flat(),
        }
    }

    /// Respells a sharp tone with the flat of the next letter, keeping the
    /// pitch class: C sharp becomes D flat. Naturals and flats stay as they
    /// are.
    pub fn into_accidental_flat(self) -> (r: Tone)
        ensures
            r.spec_index() == self.spec_index(),
            self.spec_accidental() == AccidentalSymbol::Sharp ==> r.spec_accidental()
                == AccidentalSymbol::Flat,
            self.spec_accidental() != AccidentalSymbol::Sharp ==> r == self,
    {
        proof {
            use_type_invariant(&self);
        }
        match self.accidental {
            AccidentalSymbol::Flat => self,
            AccidentalSymbol::Natural => self,
            AccidentalSymbol::Sharp => Tone::new(self.tone.transpose(1), AccidentalSymbol::Flat),
        }
    }

    /// Respells a flat tone with the sharp of the previous letter, keeping
    /// the pitch class: D flat becomes C sharp. Naturals and sharps stay as
    /// they are.
    pub fn into_accidental_sharp(self) -> (r: Tone)
        ensures
            r.spec_index() == self.spec_index(),
            self.spec_accidental() == AccidentalSymbol::Flat ==> r.spec_accidental()
                == AccidentalSymbol::Sharp,
            self.spec_accidental() != AccidentalSymbol::Flat ==> r == self,
    {
        proof {
            use_type_invariant(&self);
        }
        match self.accidental {
            AccidentalSymbol::Sharp => self,
            AccidentalSymbol::Natural => self,
            AccidentalSymbol::Flat => Tone::new(self.tone.transpose(-1), AccidentalSymbol::Sharp),
        }
    }

    /// Walks the twelve pitch classes once, starting from this tone, in
    /// canonical (sharp) spellings.
    pub fn into_iter(self) -> (it: ToneIter)
        ensures
            it.spec_start() == self.spec_index(),
            it.spec_pos() == 0,
    {
        proof {
            use_type_invariant(&self);
        }
        let start = Divided::index(&self);
        ToneIter { start, index: 0 }
    }
}

impl Divided for Tone {
    open spec fn spec_divided() -> int {
        12
    }

    /// The chromatic index: the letter's step shifted by the accidental,
    /// wrapped around the octave.
    open spec fn spec_index(&self) -> int {
        (spec_letter_chroma(self.spec_tone()) + spec_accidental_shift(self.spec_accidental()) + 12)
            % 12
    }

    fn num_devided() -> (n: usize)
        ensures
            n == Self::spec_divided(),
    {
        12
    }

    fn index(&self) -> (i: usize)
        ensures
            i == self.spec_index(),
    {
        let base: usize = match self.tone {
            ToneSymbol::C => 0,
            ToneSymbol::D => 2,
            ToneSymbol::E => 4,
            ToneSymbol::F => 5,
            ToneSymbol::G => 7,
            ToneSymbol::A => 9,
            ToneSymbol::B => 11,
        };
        let shift: usize = match self.accidental {
            AccidentalSymbol::Flat => 0,
            AccidentalSymbol::Natural => 1,
            AccidentalSymbol::Sharp => 2,
        };
        (base + shift + 11) % 12
    }
}

impl Pitch for Tone {
    /// The canonical (sharp) spelling on each chromatic index.
    closed spec fn spec_canon(i: int) -> Tone {
        if i == 0 {
            Tone { tone: ToneSymbol::C, accidental: AccidentalSymbol::Natural }
        } else if i == 1 {
            Tone { tone: ToneSymbol::C, accidental: AccidentalSymbol::Sharp }
        } else if i == 2 {
            Tone { tone: ToneSymbol::D, accidental: AccidentalSymbol::Natural }
        } else if i == 3 {
            Tone { tone: ToneSymbol::D, accidental: AccidentalSymbol::Sharp }
        } else if i == 4 {
            Tone { tone: ToneSymbol::E, accidental: AccidentalSymbol::Natural }
        } else if i == 5 {
            Tone { tone: ToneSymbol::F, accidental: AccidentalSymbol::Natural }
        } else if i == 6 {
            Tone { tone: ToneSymbol::F, accidental: AccidentalSymbol::Sharp }
        } else if i == 7 {
            Tone { tone: ToneSymbol::G, accidental: AccidentalSymbol::Natural }
        } else if i == 8 {
            Tone { tone: ToneSymbol::G, accidental: AccidentalSymbol::Sharp }
        } else if i == 9 {
            Tone { tone: ToneSymbol::A, accidental: AccidentalSymbol::Natural }
        } else if i == 10 {
            Tone { tone: ToneSymbol::A, accidental: AccidentalSymbol::Sharp }
        } else {
            Tone { tone: ToneSymbol::B, accidental: AccidentalSymbol::Natural }
        }
    }

    fn transpose(self, t: i32) -> (r: Tone)
        ensures
            r == Self::spec_canon((self.spec_index() + t) % Self::spec_divided()),
    {
        let i = Divided::index(&self);
        let x: i64 = i as i64 + t as i64;
        let m: i64 = x.checked_rem_euclid(12).unwrap();
        match m {
            0 => Tone { tone: ToneSymbol::C, accidental: AccidentalSymbol::Natural },
            1 => Tone { tone: ToneSymbol::C, accidental: AccidentalSymbol::Sharp },
            2 => Tone { tone: ToneSymbol::D, accidental: AccidentalSymbol::Natural },
            3 => Tone { tone: ToneSymbol::D, accidental: AccidentalSymbol::Sharp },
            4 => Tone { tone: ToneSymbol::E, accidental: AccidentalSymbol::Natural },
            5 => Tone { tone: ToneSymbol::F, accidental: AccidentalSymbol::Natural },
            6 => Tone { tone: ToneSymbol::F, accidental: AccidentalSymbol::Sharp },
            7 => Tone { tone: ToneSymbol::G, accidental: AccidentalSymbol::Natural },
            8 => Tone { tone: ToneSymbol::G, accidental: AccidentalSymbol::Sharp },
            9 => Tone { tone: ToneSymbol::A, accidental: AccidentalSymbol::Natural },
            10 => Tone { tone: ToneSymbol::A, accidental: AccidentalSymbol::Sharp },
            _ => Tone { tone: ToneSymbol::B, accidental: AccidentalSymbol::Natural },
        }
    }
}

/// The letter of the canonical spelling on chromatic index `i`.
pub open spec fn spec_canon_letter(i: int) -> ToneSymbol {
    if i == 0 || i == 1 {
        ToneSymbol::C
    } else if i == 2 || i == 3 {
        ToneSymbol::D
    } else if i == 4 {
        ToneSymbol::E
    } else if i == 5 || i == 6 {
        ToneSymbol::F
    } else if i == 7 || i == 8 {
        ToneSymbol::G
    } else if i == 9 || i == 10 {
        ToneSymbol::A
    } else {
        ToneSymbol::B
    }
}

/// The accidental of the canonical spelling on chromatic index `i`: sharp on
/// the five black keys, natural elsewhere.
pub open spec fn spec_canon_accidental(i: int) -> AccidentalSymbol {
    if i == 1 || i == 3 || i == 6 || i == 8 || i == 10 {
        AccidentalSymbol::Sharp
    } else {
        AccidentalSymbol::Natural
    }
}

/// What the canonical spelling on each chromatic index is: its letter and
/// accidental follow the sharp-spelling table, and it stands on its own
/// index. With this, transposition laws follow from `transpose`'s contract:
/// the index of `t.transpose(d)` is `(t.index + d) mod 12`.
pub proof fn lemma_canon_spelling(i: int)
    requires
        0 <= i < 12,
    ensures
        (<Tone as Pitch>::spec_canon(i)).spec_tone() == spec_canon_letter(i),
        (<Tone as Pitch>::spec_canon(i)).spec_accidental() == spec_canon_accidental(i),
        (<Tone as Pitch>::spec_canon(i)).spec_index() == i,
{
}

/// The transposition law: the tone `transpose` returns stands on
/// `(index + delta) mod 12`. Its contract names the canonical spelling on
/// that index; this law says that spelling stands on its own index, so
/// transposing shifts the chromatic index by `delta`, wrapping with the
/// floored modulo.
pub proof fn lemma_transpose_index(t: Tone, delta: int)
    ensures
        (<Tone as Pitch>::spec_canon((t.spec_index() + delta) % 12)).spec_index() == (
        t.spec_index() + delta) % 12,
{
    vstd::arithmetic::div_mod::lemma_mod_bound(t.spec_index() + delta, 12);
    lemma_canon_spelling((t.spec_index() + delta) % 12);
}

/// A tone is nothing more than its letter and accidental: two tones that
/// agree on both are the same tone.
pub proof fn lemma_tone_spelling_eq(a: Tone, b: Tone)
    requires
        a.spec_tone() == b.spec_tone(),
        a.spec_accidental() == b.spec_accidental(),
    ensures
        a == b,
{
}

impl From<usize> for Tone {
    /// The canonical (sharp) spelling on chromatic index `value mod 12`.
    fn from(value: usize) -> (r: Tone) {
        let m = value % 12;
        match m {
            0 => Tone { tone: ToneSymbol::C, accidental: AccidentalSymbol::Natural },
            1 => Tone { tone: ToneSymbol::C, accidental: AccidentalSymbol::Sharp },
            2 => Tone { tone: ToneSymbol::D, accidental: AccidentalSymbol::Natural },
            3 => Tone { tone: ToneSymbol::D, accidental: AccidentalSymbol::Sharp },
            4 => Tone { tone: ToneSymbol::E, accidental: AccidentalSymbol::Natural },
            5 => Tone { tone: ToneSymbol::F, accidental: AccidentalSymbol::Natural },
            6 => Tone { tone: ToneSymbol::F, accidental: AccidentalSymbol::Sharp },
            7 => Tone { tone: ToneSymbol::G, accidental: AccidentalSymbol::Natural },
            8 => Tone { tone: ToneSymbol::G, accidental: AccidentalSymbol::Sharp },
            9 => Tone { tone: ToneSymbol::A, accidental: AccidentalSymbol::Natural },
            10 => Tone { tone: ToneSymbol::A, accidental: AccidentalSymbol::Sharp },
            _ => Tone { tone: ToneSymbol::B, accidental: AccidentalSymbol::Natural },
        }
    }
}

impl vstd::std_specs::convert::FromSpecImpl<usize> for Tone {
    open spec fn obeys_from_spec() -> bool {
        true
    }

    open spec fn from_spec(t: usize) -> Tone {
        <Tone as Pitch>::spec_canon(t as int % 12)
    }
}

impl PartialEq for Tone {
    /// Two tones are equal when they stand on the same chromatic index,
    /// whatever their spellings.
    fn eq(&self, other: &Tone) -> (r: bool) {
        Divided::index(self) == Divided::index(other)
    }
}

impl vstd::std_specs::cmp::PartialEqSpecImpl for Tone {
    open spec fn obeys_eq_spec() -> bool {
        true
    }

    open spec fn eq_spec(&self, other: &Tone) -> bool {
        self.spec_index() == other.spec_index()
    }
}

impl PartialOrd for Tone {
    /// Tones order by chromatic index, whatever their spellings.
    fn partial_cmp(&self, other: &Tone) -> (r: Option<Ordering>) {
        let a = Divided::index(self);
        let b = Divided::index(other);
        if a < b {
            Some(Ordering::Less)
        } else if a == b {
            Some(Ordering::Equal)
        } else {
            Some(Ordering::Greater)
        }
    }
}

impl vstd::std_specs::cmp::PartialOrdSpecImpl for Tone {
    open spec fn obeys_partial_cmp_spec() -> bool {
        true
    }

    open spec fn partial_cmp_spec(&self, other: &Tone) -> Option<Ordering> {
        if self.spec_index() < other.spec_index() {
            Some(Ordering::Less)
        } else if self.spec_index() == other.spec_index() {
            Some(Ordering::Equal)
        } else {
            Some(Ordering::Greater)
        }
    }
}

/// An iterator over the twelve pitch classes, starting from a given index,
/// in canonical (sharp) spellings.
#[derive(Debug, Clone, Copy)]
pub struct ToneIter {
    start: usize,
    index: usize,
}

impl ToneIter {
    /// The iterator never leaves the octave: its start lies inside it and
    /// its position walks it once.
    #[verifier::type_invariant]
    pub closed spec fn spec_iter_wf(self) -> bool {
        self.start < 12 && self.index <= 12
    }

    /// The index the walk started from, as seen by specifications.
    pub closed spec fn spec_start(self) -> usize {
        self.start
    }

    /// How many tones were already handed out.
    pub closed spec fn spec_pos(self) -> usize {
        self.index
    }

    /// The next pitch class, or nothing once all twelve were handed out.
    pub fn next(&mut self) -> (r: Option<Tone>)
        ensures
            final(self).spec_start() == old(self).spec_start(),
            if old(self).spec_pos() < 12 {
                (r matches Some(t) && t == <Tone as Pitch>::spec_canon(
                    (old(self).spec_start() + old(self).spec_pos()) as int % 12,
                )) && final(self).spec_pos() == old(self).spec_pos() + 1
            } else {
                r is None && final(self).spec_pos() == old(self).spec_pos()
            },
    {
        proof {
            use_type_invariant(&*self);
        }
        if self.index < 12 {
            let m = (self.index + self.start) % 12;
            let current = match m {
                0 => Tone { tone: ToneSymbol::C, accidental: AccidentalSymbol::Natural },
                1 => Tone { tone: ToneSymbol::C, accidental: AccidentalSymbol::Sharp },
                2 => Tone { tone: ToneSymbol::D, accidental: AccidentalSymbol::Natural },
                3 => Tone { tone: ToneSymbol::D, accidental: AccidentalSymbol::Sharp },
                4 => Tone { tone: ToneSymbol::E, accidental: AccidentalSymbol::Natural },
                5 => Tone { tone: ToneSymbol::F, accidental: AccidentalSymbol::Natural },
                6 => Tone { tone: ToneSymbol::F, accidental: AccidentalSymbol::Sharp },
                7 => Tone { tone: ToneSymbol::G, accidental: AccidentalSymbol::Natural },
                8 => Tone { tone: ToneSymbol::G, accidental: AccidentalSymbol::Sharp },
                9 => Tone { tone: ToneSymbol::A, accidental: AccidentalSymbol::Natural },
                10 => Tone { tone: ToneSymbol::A, accidental: AccidentalSymbol::Sharp },
                _ => Tone { tone: ToneSymbol::B, accidental: AccidentalSymbol::Natural },
            };
            self.index = self.index + 1;
            Some(current)
        } else {
            None
        }
    }
}

} // verus!
