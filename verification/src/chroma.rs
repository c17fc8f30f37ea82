//! The cyclic universe of pitch classes.
//!
//! A `Chroma` is a finite cyclic group of `size` pitch classes; a `Tone` is
//! one element of it, identified by its step. Indexing is total: any signed
//! step is reduced into `[0, size)` with a floored (Euclidean) modulo, so
//! negative steps wrap backwards. The forward distance between two tones is
//! `(to - from) mod size`, which is never negative.

use vstd::prelude::*;

verus! {

/// Why a `Chroma` could not be constructed.
#[derive(Debug, Clone, Copy, PartialEq, Eq, Structural)]
pub enum ChromaError {
    /// A chroma of size zero has no tones and no modulo.
    ZeroSize,
}

/// A finite cyclic group of pitch classes (12 in equal temperament).
#[derive(Debug, Clone, Copy, PartialEq, Eq, Structural)]
pub struct Chroma {
    size: usize,
}

/// One pitch class: a step inside a chroma of a given size.
///
/// Two tones are equal exactly when their steps and chroma sizes agree;
/// a tone holds no spelling, only its canonical step.
#[derive(Debug, Clone, Copy, PartialEq, Eq, Structural)]
pub struct Tone {
    step: usize,
    size: usize,
}

impl Chroma {
    /// Every chroma that exists at run time has at least one tone.
    #[verifier::type_invariant]
    pub closed spec fn inv(self) -> bool {
        self.size >= 1
    }

    /// The number of pitch classes, as seen by specifications.
    pub closed spec fn spec_size(self) -> usize {
        self.size
    }

    /// The step reached by walking `step` steps from the origin: the
    /// argument reduced with the floored modulo into `[0, size)`.
    pub open spec fn spec_step_at(self, step: int) -> int {
        step % self.spec_size() as int
    }

    /// The forward distance from `from` to `to`: `(to - from) mod size`.
    pub open spec fn spec_distance(self, from: Tone, to: Tone) -> int {
        (to.spec_step() - from.spec_step()) % self.spec_size() as int
    }

    /// Builds a chroma of `size` pitch classes; only size zero is rejected.
    pub fn new(size: usize) -> (r: Result<Chroma, ChromaError>)
        ensures
            size >= 1 ==> (r matches Ok(c) && c.spec_size() == size),
            size == 0 ==> (r matches Err(e) && e == ChromaError::ZeroSize),
    {
        if size == 0 {
            Err(ChromaError::ZeroSize)
        } else {
            Ok(Chroma { size })
        }
    }

    /// The number of pitch classes.
    pub fn size(&self) -> (n: usize)
        ensures
            n == self.spec_size(),
            n >= 1,
    {
        proof {
            use_type_invariant(self);
        }
        self.size
    }

    /// The tone at `step`, wrapping with the floored modulo, so any signed
    /// step names a tone: total on all inputs.
    pub fn tone_at(&self, step: i64) -> (t: Tone)
        ensures
            t.spec_step() == self.spec_step_at(step as int),
            t.spec_chroma_size() == self.spec_size(),
    {
        proof {
            use_type_invariant(self);
        }
        let n: i128 = self.size as i128;
        let s: i128 = step as i128;
        let m: i128 = s.checked_rem_euclid(n).unwrap();
        Tone { step: m as usize, size: self.size }
    }

    /// The forward distance from `from` to `to`, in steps: always in
    /// `[0, size)`, and asymmetric by design (it walks upward only).
    pub fn distance(&self, from: &Tone, to: &Tone) -> (d: usize)
        requires
            from.spec_chroma_size() == self.spec_size(),
            to.spec_chroma_size() == self.spec_size(),
        ensures
            d == self.spec_distance(*from, *to),
            0 <= d < self.spec_size(),
    {
        proof {
            use_type_invariant(self);
            use_type_invariant(from);
            use_type_invariant(to);
        }
        let n: i128 = self.size as i128;
        let diff: i128 = to.step as i128 - from.step as i128;
        let m: i128 = diff.checked_rem_euclid(n).unwrap();
        m as usize
    }
}

impl Tone {
    /// A tone's step always lies inside its chroma.
    #[verifier::type_invariant]
    pub closed spec fn inv(self) -> bool {
        self.size >= 1 && self.step < self.size
    }

    /// The step, as seen by specifications.
    pub closed spec fn spec_step(self) -> usize {
        self.step
    }

    /// The size of the chroma the tone belongs to, as seen by specifications.
    pub closed spec fn spec_chroma_size(self) -> usize {
        self.size
    }

    /// Builds the tone at `step` in a chroma of `chroma_size` classes,
    /// reducing the step modulo the size; only size zero is rejected.
    pub fn from_step(step: usize, chroma_size: usize) -> (r: Result<Tone, ChromaError>)
        ensures
            chroma_size >= 1 ==> (r matches Ok(t) && t.spec_step() == step as int % chroma_size as int
                && t.spec_chroma_size() == chroma_size),
            chroma_size == 0 ==> (r matches Err(e) && e == ChromaError::ZeroSize),
    {
        if chroma_size == 0 {
            Err(ChromaError::ZeroSize)
        } else {
            Ok(Tone { step: step % chroma_size, size: chroma_size })
        }
    }

    /// The canonical step of this tone, in `[0, chroma_size)`.
    pub fn step(&self) -> (s: usize)
        ensures
            s == self.spec_step(),
            0 <= s < self.spec_chroma_size(),
    {
        proof {
            use_type_invariant(self);
        }
        self.step
    }

    /// The size of the chroma the tone belongs to.
    pub fn chroma_size(&self) -> (n: usize)
        ensures
            n == self.spec_chroma_size(),
            n >= 1,
    {
        proof {
            use_type_invariant(self);
        }
        self.size
    }

    /// The tone `delta` steps away, wrapping in either direction with the
    /// floored modulo: transposing step 0 by -1 in a 12-chroma yields 11.
    pub fn transpose(&self, delta: i64) -> (t: Tone)
        ensures
            t.spec_step() == (self.spec_step() + delta) % self.spec_chroma_size() as int,
            t.spec_chroma_size() == self.spec_chroma_size(),
    {
        proof {
            use_type_invariant(self);
        }
        let n: i128 = self.size as i128;
        let s: i128 = self.step as i128 + delta as i128;
        let m: i128 = s.checked_rem_euclid(n).unwrap();
        Tone { step: m as usize, size: self.size }
    }
}

/// A tone is nothing more than its step and its chroma size: two tones that
/// agree on both are the same tone.
pub proof fn lemma_tone_eq(a: Tone, b: Tone)
    requires
        a.spec_step() == b.spec_step(),
        a.spec_chroma_size() == b.spec_chroma_size(),
    ensures
        a == b,
{
}

/// Transposing by whole cycles is the identity on pitch classes: for any
/// step and any number of cycles `k`, the tone at `step + k * size` sits on
/// the same step as the tone at `step`.
pub proof fn lemma_tone_at_cyclic(chroma: Chroma, step: int, k: int)
    requires
        chroma.spec_size() >= 1,
    ensures
        chroma.spec_step_at(step + k * chroma.spec_size()) == chroma.spec_step_at(step),
{
    let n = chroma.spec_size() as int;
    assert((step + k * n) % n == step % n) by {
        vstd::arithmetic::div_mod::lemma_mod_multiples_vanish(k, step, n);
    }
}

/// The forward distance is always non-negative and below the chroma size.
pub proof fn lemma_distance_bounds(chroma: Chroma, a: Tone, b: Tone)
    requires
        chroma.spec_size() >= 1,
    ensures
        0 <= chroma.spec_distance(a, b) < chroma.spec_size(),
{
    let n = chroma.spec_size() as int;
    vstd::arithmetic::div_mod::lemma_mod_bound(b.spec_step() - a.spec_step(), n);
}

} // verus!
