//! Scales over a chroma: a key tone plus an interval formula.
//!
//! A `Scale` owns a key tone, a chroma, and a formula of intervals measured
//! upward from the key; entry 0 is always the zero interval, so degree 1 is
//! the key itself. Degrees beyond the formula length wrap around it, one
//! cycle per full pass. The module also offers ready-made diatonic and
//! pentatonic scales over the twelve-tone octave.

pub mod diatonic;
pub mod pentatonic;

pub use diatonic::Diatonic;
pub use pentatonic::Pentatonic;

use vstd::prelude::*;

use crate::base::{
    first_index_of, lemma_first_index_of_none, lemma_first_index_of_props,
    lemma_first_index_of_some, Degree,
};
use crate::chroma::{lemma_tone_eq, Chroma, Tone};

verus! {

/// Why a `Scale` could not be constructed.
#[derive(Debug, Clone, Copy, PartialEq, Eq, Structural)]
pub enum ScaleError {
    /// The key tone belongs to a chroma of another size.
    KeyMismatch,
    /// The formula holds no entries; a scale needs at least its key.
    EmptyFormula,
    /// The formula does not start with the zero interval.
    NonZeroHead,
    /// A formula entry reaches outside the chroma.
    EntryOutOfRange,
}

/// A scale: a key tone, a chroma, and an interval formula from the key.
#[derive(Debug)]
pub struct Scale {
    key: Tone,
    formula: Vec<usize>,
    chroma: Chroma,
}

impl Scale {
    /// What construction guarantees: the key lives in the chroma, the
    /// formula starts with the zero interval, and every entry stays inside
    /// the chroma.
    #[verifier::type_invariant]
    pub closed spec fn spec_wf(self) -> bool {
        &&& self.chroma.spec_size() >= 1
        &&& self.key.spec_chroma_size() == self.chroma.spec_size()
        &&& self.formula@.len() >= 1
        &&& self.formula@[0] == 0
        &&& forall|i: int| 0 <= i < self.formula@.len() ==> self.formula@[i]
            < self.chroma.spec_size()
    }

    /// The key tone, as seen by specifications.
    pub closed spec fn spec_key(self) -> Tone {
        self.key
    }

    /// The formula, as seen by specifications.
    pub closed spec fn spec_formula(self) -> Seq<usize> {
        self.formula@
    }

    /// The chroma, as seen by specifications.
    pub closed spec fn spec_chroma(self) -> Chroma {
        self.chroma
    }

    /// The number of degrees in one cycle of the scale.
    pub open spec fn spec_len(self) -> int {
        self.spec_formula().len() as int
    }

    /// Whether the pitch class on `step` lies on the scale: its forward
    /// distance from the key appears in the formula.
    pub open spec fn spec_member_step(self, step: int) -> bool {
        exists|i: int| 0 <= i < self.spec_len() && #[trigger] self.spec_formula()[i]
            == (step - self.spec_key().spec_step()) % self.spec_chroma().spec_size() as int
    }

    /// Whether `t` lies on the scale: its forward distance from the key
    /// appears in the formula.
    pub open spec fn spec_member(self, t: Tone) -> bool {
        self.spec_member_step(t.spec_step() as int)
    }

    /// The step sounded by the one-based degree `d`: the formula entry at
    /// `(d - 1) mod len`, walked up from the key.
    pub open spec fn spec_step_for_degree(self, d: int) -> int {
        self.spec_chroma().spec_step_at(
            self.spec_key().spec_step() + self.spec_formula()[(d - 1) % self.spec_len()],
        )
    }

    /// The one-based degree of `t` inside the first cycle: one past the
    /// first formula entry matching `t`'s distance from the key, or nothing
    /// when the tone is off the scale.
    pub open spec fn spec_degree_for_tone(self, t: Tone) -> Option<int> {
        match first_index_of(
            self.spec_formula(),
            self.spec_chroma().spec_distance(self.spec_key(), t) as usize,
        ) {
            Some(i) => Some(i + 1),
            None => None,
        }
    }

    /// Builds a scale from a key, a formula of intervals from the key, and
    /// the chroma they live in. Rejected are: a key from a chroma of another
    /// size, an empty formula, a formula not starting on the zero interval,
    /// and an entry reaching outside the chroma — each with its own error,
    /// checked in that order.
    pub fn new(key: Tone, formula: Vec<usize>, chroma: Chroma) -> (r: Result<Scale, ScaleError>)
        ensures
            ({
                let size = chroma.spec_size();
                if key.spec_chroma_size() != size {
                    r == Err::<Scale, ScaleError>(ScaleError::KeyMismatch)
                } else if formula@.len() == 0 {
                    r == Err::<Scale, ScaleError>(ScaleError::EmptyFormula)
                } else if formula@[0] != 0 {
                    r == Err::<Scale, ScaleError>(ScaleError::NonZeroHead)
                } else if exists|i: int| 0 <= i < formula@.len() && #[trigger] formula@[i] >= size {
                    r == Err::<Scale, ScaleError>(ScaleError::EntryOutOfRange)
                } else {
                    r matches Ok(s) && s.spec_key() == key && s.spec_formula() == formula@
                        && s.spec_chroma() == chroma
                }
            }),
    {
        let size = chroma.size();
        if key.chroma_size() != size {
            return Err(ScaleError::KeyMismatch);
        }
        if formula.len() == 0 {
            return Err(ScaleError::EmptyFormula);
        }
        if formula[0] != 0 {
            return Err(ScaleError::NonZeroHead);
        }
        let mut i: usize = 0;
        let n = formula.len();
        while i < n
            invariant
                i <= n,
                n == formula@.len(),
                n >= 1,
                size == chroma.spec_size(),
                key.spec_chroma_size() == size,
                formula@[0] == 0,
                forall|j: int| 0 <= j < i ==> formula@[j] < size,
            decreases n - i,
        {
            if formula[i] >= size {
                proof {
                    assert(exists|j: int| 0 <= j < formula@.len() && #[trigger] formula@[j]
                        >= size) by {
                        assert(formula@[i as int] >= size);
                    }
                }
                return Err(ScaleError::EntryOutOfRange);
            }
            i = i + 1;
        }
        Ok(Scale { key, formula, chroma })
    }

    /// The key tone: the scale's first degree.
    pub fn key(&self) -> (t: Tone)
        ensures
            t == self.spec_key(),
    {
        self.key
    }

    /// The interval formula, measured upward from the key.
    pub fn formula(&self) -> (f: &Vec<usize>)
        ensures
            f@ == self.spec_formula(),
    {
        &self.formula
    }

    /// The chroma the scale lives in.
    pub fn chroma(&self) -> (c: Chroma)
        ensures
            c == self.spec_chroma(),
    {
        proof {
            use_type_invariant(self);
        }
        self.chroma
    }

    /// Whether `tone` lies on the scale.
    pub fn is_member(&self, tone: &Tone) -> (r: bool)
        requires
            tone.spec_chroma_size() == self.spec_chroma().spec_size(),
        ensures
            r == self.spec_member(*tone),
    {
        proof {
            use_type_invariant(self);
        }
        let d = self.chroma.distance(&self.key, tone);
        let n = self.formula.len();
        let mut i: usize = 0;
        while i < n
            invariant
                i <= n,
                n == self.spec_formula().len(),
                d == self.spec_chroma().spec_distance(self.spec_key(), *tone),
                forall|j: int| 0 <= j < i ==> #[trigger] self.spec_formula()[j] != d,
            decreases n - i,
        {
            if self.formula[i] == d {
                return true;
            }
            i = i + 1;
        }
        false
    }

    /// The tone sounded by `degree`: degrees wrap around the formula, so
    /// degree `len + 1` sounds the same pitch class as degree 1.
    pub fn tone_for_degree(&self, degree: &Degree) -> (t: Tone)
        ensures
            t.spec_step() == self.spec_step_for_degree(degree.spec_value() as int),
            t.spec_chroma_size() == self.spec_chroma().spec_size(),
    {
        proof {
            use_type_invariant(self);
        }
        let v = degree.value();
        let l = self.formula.len();
        let idx = (v - 1) % l;
        let off = self.formula[idx];
        let key_step = self.key.step();
        let size = self.chroma.size();
        let rem = size - off;
        let step = if key_step >= rem {
            key_step - rem
        } else {
            key_step + off
        };
        proof {
            let sum = key_step + off;
            if key_step >= rem {
                vstd::arithmetic::div_mod::lemma_fundamental_div_mod_converse_mod(
                    sum as int,
                    size as int,
                    1,
                    sum - size,
                );
            } else {
                vstd::arithmetic::div_mod::lemma_small_mod(sum as nat, size as nat);
            }
        }
        let t = match Tone::from_step(step, size) {
            Ok(t) => t,
            Err(_) => {
                proof {
                    assert(false);
                }
                self.key
            },
        };
        proof {
            vstd::arithmetic::div_mod::lemma_small_mod(step as nat, size as nat);
        }
        t
    }

    /// The degree of `tone` inside the first cycle, or nothing when the tone
    /// is off the scale. This is the partial inverse of `tone_for_degree`.
    pub fn degree_for_tone(&self, tone: &Tone) -> (r: Option<Degree>)
        requires
            tone.spec_chroma_size() == self.spec_chroma().spec_size(),
        ensures
            match r {
                Some(d) => self.spec_degree_for_tone(*tone) == Some(d.spec_value() as int),
                None => self.spec_degree_for_tone(*tone) is None,
            },
    {
        proof {
            use_type_invariant(self);
        }
        let d = self.chroma.distance(&self.key, tone);
        let n = self.formula.len();
        let mut i: usize = 0;
        while i < n
            invariant
                i <= n,
                n == self.spec_formula().len(),
                d == self.spec_chroma().spec_distance(self.spec_key(), *tone),
                forall|j: int| 0 <= j < i ==> self.spec_formula()[j] != d,
            decreases n - i,
        {
            if self.formula[i] == d {
                proof {
                    lemma_first_index_of_some(self.spec_formula(), d, i as int);
                }
                let deg = match Degree::new(i + 1) {
                    Ok(deg) => deg,
                    Err(_) => {
                        proof {
                            assert(false);
                        }
                        return None;
                    },
                };
                return Some(deg);
            }
            i = i + 1;
        }
        proof {
            lemma_first_index_of_none(self.spec_formula(), d);
        }
        None
    }

    /// The scale's tones in formula order: the tones of degrees 1 through
    /// `len`.
    pub fn tones(&self) -> (v: Vec<Tone>)
        ensures
            v@.len() == self.spec_len(),
            forall|i: int| 0 <= i < self.spec_len()
                ==> (#[trigger] v@[i]).spec_step() == self.spec_step_for_degree(i + 1)
                && v@[i].spec_chroma_size() == self.spec_chroma().spec_size(),
    {
        proof {
            use_type_invariant(self);
        }
        let n = self.formula.len();
        let mut v: Vec<Tone> = Vec::new();
        let mut i: usize = 0;
        while i < n
            invariant
                i <= n,
                n == self.spec_len(),
                self.spec_wf(),
                v@.len() == i,
                forall|j: int| 0 <= j < i
                    ==> (#[trigger] v@[j]).spec_step() == self.spec_step_for_degree(j + 1)
                    && v@[j].spec_chroma_size() == self.spec_chroma().spec_size(),
            decreases n - i,
        {
            let deg = match Degree::new(i + 1) {
                Ok(deg) => deg,
                Err(_) => {
                    proof {
                        assert(false);
                    }
                    return v;
                },
            };
            let t = self.tone_for_degree(&deg);
            v.push(t);
            i = i + 1;
        }
        v
    }
}

/// The round-trip law: a tone that lies on the scale is sounded again by the
/// degree found for it. `r` stands for what `tone_for_degree` returns on the
/// degree that `degree_for_tone` found for `t`: it is `t` itself.
pub proof fn lemma_degree_tone_round_trip(s: Scale, t: Tone, r: Tone)
    requires
        s.spec_wf(),
        t.spec_chroma_size() == s.spec_chroma().spec_size(),
        t.spec_step() < t.spec_chroma_size(),
        s.spec_degree_for_tone(t) is Some,
        r.spec_step() == s.spec_step_for_degree(s.spec_degree_for_tone(t)->Some_0),
        r.spec_chroma_size() == s.spec_chroma().spec_size(),
    ensures
        r == t,
{
    let size = s.spec_chroma().spec_size() as int;
    let key = s.spec_key().spec_step() as int;
    let dist = s.spec_chroma().spec_distance(s.spec_key(), t);
    lemma_first_index_of_props(s.spec_formula(), dist as usize);
    let i = first_index_of(s.spec_formula(), dist as usize)->Some_0;
    vstd::arithmetic::div_mod::lemma_mod_bound(t.spec_step() - key, size);
    assert(s.spec_formula()[i] == dist);
    vstd::arithmetic::div_mod::lemma_small_mod(i as nat, s.spec_formula().len() as nat);
    assert(s.spec_step_for_degree(i + 1) == (key + dist) % size);
    assert((key + (t.spec_step() - key) % size) % size == (key + (t.spec_step() - key)) % size) by {
        vstd::arithmetic::div_mod::lemma_add_mod_noop_right(key, t.spec_step() - key, size);
    }
    vstd::arithmetic::div_mod::lemma_small_mod(t.spec_step() as nat, size as nat);
    lemma_tone_eq(r, t);
}

/// What every constructed scale guarantees: the chroma is inhabited, the key
/// lives in it, the formula is non-empty, starts on the zero interval, and
/// stays inside the chroma.
pub proof fn lemma_scale_invariants(s: Scale)
    requires
        s.spec_wf(),
    ensures
        s.spec_chroma().spec_size() >= 1,
        s.spec_key().spec_chroma_size() == s.spec_chroma().spec_size(),
        s.spec_len() >= 1,
        s.spec_formula()[0] == 0,
        forall|i: int| 0 <= i < s.spec_len() ==> #[trigger] s.spec_formula()[i]
            < s.spec_chroma().spec_size(),
{
}

/// The key always lies on its own scale: its distance from itself is the
/// zero interval, which every formula starts with.
pub proof fn lemma_key_is_member(s: Scale)
    requires
        s.spec_wf(),
    ensures
        s.spec_member(s.spec_key()),
{
    let size = s.spec_chroma().spec_size() as int;
    vstd::arithmetic::div_mod::lemma_small_mod(0, size as nat);
    assert(s.spec_formula()[0] == (s.spec_key().spec_step() - s.spec_key().spec_step()) % size);
}

/// The wraparound law: degrees one full formula length apart sound the same
/// pitch class, so degree `len + 1` repeats degree 1 one cycle later.
pub proof fn lemma_degree_wraparound(s: Scale, d: int)
    requires
        s.spec_wf(),
        d >= 1,
    ensures
        s.spec_step_for_degree(d + s.spec_len()) == s.spec_step_for_degree(d),
{
    let l = s.spec_len();
    assert((d + l - 1) % l == (d - 1) % l) by {
        vstd::arithmetic::div_mod::lemma_mod_add_multiples_vanish(d - 1, l);
    }
}

} // verus!
