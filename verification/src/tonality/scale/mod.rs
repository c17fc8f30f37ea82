//! Scales walked as tone streams.
//!
//! A `Scale` here is anything with a tonic and a membership test; callers
//! turn one into a `Scaler`, which holds the scale's members of the twelve
//! pitch classes starting at the tonic, in ascending order, and hands them
//! out one by one.

mod major_pentatonic_scale_walker;
mod major_scale;
mod major_scale_walker;
mod minor_pentatonic_scale_walker;
mod minor_scale;
mod minor_scale_walker;

pub use major_pentatonic_scale_walker::MajorPentatonicScaleWalker;
pub use major_scale::MajorScale;
pub use major_scale_walker::MajorScaleWalker;
pub use minor_pentatonic_scale_walker::MinorPentatonicScaleWalker;
pub use minor_scale::MinorScale;
pub use minor_scale_walker::MinorScaleWalker;

use vstd::prelude::*;

use super::note::Tone;
use crate::base::DegreeConstructError;
use crate::tonality::{Divided, Pitch};

verus! {

/// Something with a tonic and a membership test.
pub trait Scale {
    /// The tonic, as seen by specifications.
    spec fn spec_tonic(&self) -> Tone;

    /// Whether `tone` lies on the scale, as seen by specifications.
    spec fn spec_on_scale(&self, tone: Tone) -> bool;

    /// The scale's tonic.
    fn tonic(&self) -> (t: &Tone)
        ensures
            *t == self.spec_tonic(),
    ;

    /// Whether `tone` lies on the scale.
    fn is_on_scale(&self, tone: &Tone) -> (r: bool)
        ensures
            r == self.spec_on_scale(*tone),
    ;
}

/// A one-based position inside a scaler's tone list.
///
/// Construction rejects zero, so every degree that exists is at least 1.
#[derive(Debug, Clone, Copy, PartialEq, Eq, Structural)]
pub struct Degree(usize);

impl Degree {
    /// A degree is never below 1.
    #[verifier::type_invariant]
    pub closed spec fn inv(self) -> bool {
        self.0 >= 1
    }

    /// The one-based value, as seen by specifications.
    pub closed spec fn spec_value(self) -> usize {
        self.0
    }

    /// Builds the degree `degree`, rejecting anything below 1.
    pub fn new(degree: usize) -> (r: Result<Degree, DegreeConstructError>)
        ensures
            degree >= 1 ==> (r matches Ok(d) && d.spec_value() == degree),
            degree < 1 ==> (r matches Err(e) && e == DegreeConstructError),
    {
        if degree < 1 {
            Err(DegreeConstructError)
        } else {
            Ok(Degree(degree))
        }
    }
}

/// The members of a scale among the first `n` pitch classes walked upward
/// from index `start`, in walk order and canonical (sharp) spellings.
pub open spec fn spec_scale_walk<S: Scale>(scale: &S, start: int, n: int) -> Seq<Tone>
    decreases n,
{
    if n <= 0 {
        Seq::empty()
    } else {
        let prev = spec_scale_walk(scale, start, n - 1);
        let t = <Tone as Pitch>::spec_canon((start + n - 1) % 12);
        if scale.spec_on_scale(t) {
            prev.push(t)
        } else {
            prev
        }
    }
}

/// A scale unfolded into its tones: the members of the twelve pitch classes
/// starting at the tonic, in ascending order, walked one by one.
#[derive(Debug, Clone)]
pub struct Scaler<S> {
    scale: S,
    tones: Vec<Tone>,
    index: usize,
}

/// Turns a scale into a `Scaler` by collecting its members.
pub trait IntoScaler<S: Scale>: Scale + Sized {
    /// Collects the scale's members of the twelve pitch classes walked
    /// upward from the tonic.
    fn into_scaler(self) -> (r: Scaler<S>)
        ensures
            r.spec_pos() == 0,
            r.spec_tones() == spec_scale_walk(&self, self.spec_tonic().spec_index(), 12),
    ;
}

impl<T: Scale + Sized> IntoScaler<T> for T {
    fn into_scaler(self) -> (r: Scaler<T>)
        ensures
            r.spec_pos() == 0,
            r.spec_tones() == spec_scale_walk(&self, self.spec_tonic().spec_index(), 12),
    {
        let mut it = (*self.tonic()).into_iter();
        let ghost start = self.spec_tonic().spec_index();
        let mut tones: Vec<Tone> = Vec::new();
        let mut k: usize = 0;
        proof {
            assert(tones@ =~= spec_scale_walk(&self, start, 0));
        }
        while k < 12
            invariant
                k <= 12,
                it.spec_start() == start,
                it.spec_pos() == k,
                tones@ == spec_scale_walk(&self, start, k as int),
            decreases 12 - k,
        {
            match it.next() {
                Some(t) => {
                    if self.is_on_scale(&t) {
                        tones.push(t);
                    }
                },
                None => {},
            }
            k = k + 1;
        }
        Scaler { scale: self, tones, index: 0 }
    }
}

impl<S> Scaler<S> {
    /// The underlying scale, as seen by specifications.
    pub closed spec fn spec_scale(self) -> S {
        self.scale
    }

    /// The collected tones, as seen by specifications.
    pub closed spec fn spec_tones(self) -> Seq<Tone> {
        self.tones@
    }

    /// How many tones were already handed out.
    pub closed spec fn spec_pos(self) -> usize {
        self.index
    }

    /// The next tone of the scale, or nothing once all were handed out.
    pub fn next(&mut self) -> (r: Option<Tone>)
        ensures
            final(self).spec_scale() == old(self).spec_scale(),
            final(self).spec_tones() == old(self).spec_tones(),
            if old(self).spec_pos() < old(self).spec_tones().len() {
                (r matches Some(t) && t == old(self).spec_tones()[old(self).spec_pos() as int])
                    && final(self).spec_pos() == old(self).spec_pos() + 1
            } else {
                r is None && final(self).spec_pos() == old(self).spec_pos()
            },
    {
        if self.index < self.tones.len() {
            let t = self.tones[self.index];
            self.index = self.index + 1;
            Some(t)
        } else {
            None
        }
    }
}

impl<S: Scale> Scale for Scaler<S> {
    open spec fn spec_tonic(&self) -> Tone {
        self.spec_scale().spec_tonic()
    }

    open spec fn spec_on_scale(&self, tone: Tone) -> bool {
        self.spec_scale().spec_on_scale(tone)
    }

    fn tonic(&self) -> (t: &Tone)
        ensures
            *t == self.spec_tonic(),
    {
        self.scale.tonic()
    }

    fn is_on_scale(&self, tone: &Tone) -> (r: bool)
        ensures
            r == self.spec_on_scale(*tone),
    {
        self.scale.is_on_scale(tone)
    }
}

impl<S: Scale> Scaler<S> {
    /// The degree of `tone` among the collected tones: one past the first
    /// position holding its pitch class. Nothing is returned when the scale
    /// disowns the tone or no collected tone shares its pitch class.
    pub fn get_interval(&self, tone: Tone) -> (r: Option<Degree>)
        ensures
            match r {
                Some(d) => {
                    let i = d.spec_value() - 1;
                    &&& self.spec_scale().spec_on_scale(tone)
                    &&& 1 <= d.spec_value() <= self.spec_tones().len()
                    &&& self.spec_tones()[i as int].spec_index() == tone.spec_index()
                    &&& forall|j: int| 0 <= j < i ==> (#[trigger] self.spec_tones()[j]).spec_index()
                        != tone.spec_index()
                },
                None => !self.spec_scale().spec_on_scale(tone) || forall|j: int|
                    0 <= j < self.spec_tones().len() ==> (#[trigger] self.spec_tones()[j]).spec_index()
                        != tone.spec_index(),
            },
    {
        if !self.scale.is_on_scale(&tone) {
            return None;
        }
        let n = self.tones.len();
        let mut i: usize = 0;
        while i < n
            invariant
                i <= n,
                n == self.spec_tones().len(),
                self.spec_scale().spec_on_scale(tone),
                forall|j: int| 0 <= j < i ==> (#[trigger] self.spec_tones()[j]).spec_index()
                    != tone.spec_index(),
            decreases n - i,
        {
            if self.tones[i] == tone {
                return Some(Degree(i + 1));
            }
            i = i + 1;
        }
        None
    }
}

} // verus!
