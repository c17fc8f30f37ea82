//! The diatonic scales: major and natural minor over twelve-tone equal
//! temperament.

use vstd::prelude::*;

use crate::base::{Octave, Scale, Scaled};
use crate::twelve_tet::{Tone, Twelve};

verus! {

/// Whether a diatonic scale is major or minor.
#[derive(Debug, Clone, Copy, PartialEq, Eq, Structural)]
pub enum Quality {
    Major,
    Minor,
}

/// A diatonic scale: a key tone and the seven chromatic distances of its
/// degrees from the key.
#[derive(Debug, Clone)]
pub struct Diatonic {
    key: Tone,
    quality: Quality,
    distances: Vec<usize>,
}

impl Diatonic {
    /// The key tone, as seen by specifications.
    pub closed spec fn spec_key(self) -> Tone {
        self.key
    }

    /// The quality, as seen by specifications.
    pub closed spec fn spec_quality(self) -> Quality {
        self.quality
    }

    /// The degree distances from the key, as seen by specifications.
    pub closed spec fn spec_distances(self) -> Seq<usize> {
        self.distances@
    }

    /// The major scale on `key`, as a scaled twelve-tone octave: the degree
    /// distances are 0, 2, 4, 5, 7, 9, 11.
    pub fn major(key: &Tone) -> (r: Scaled<Diatonic, Twelve>)
        ensures
            r.spec_scaler().spec_key() == *key,
            r.spec_scaler().spec_quality() == Quality::Major,
            r.spec_scaler().spec_distances() == seq![0usize, 2, 4, 5, 7, 9, 11],
            r.spec_o() == Twelve,
            r.wf(),
    {
        let scale = Diatonic { key: *key, quality: Quality::Major, distances: vec![0, 2, 4, 5, 7, 9, 11] };
        proof {
            crate::twelve_tet::lemma_twelve_classes_step(0);
            assert(scale.spec_distances() =~= seq![0usize, 2, 4, 5, 7, 9, 11]);
            assert forall|i: int| 0 <= i < 7 implies scale.spec_distances()[i] < 12 by {
                assert(scale.spec_distances()[i] == seq![0usize, 2, 4, 5, 7, 9, 11][i]);
            }
        }
        Scaled::new(scale, Twelve)
    }

    /// The natural minor scale on `key`, as a scaled twelve-tone octave: the
    /// degree distances are 0, 2, 3, 5, 7, 8, 10.
    pub fn minor(key: &Tone) -> (r: Scaled<Diatonic, Twelve>)
        ensures
            r.spec_scaler().spec_key() == *key,
            r.spec_scaler().spec_quality() == Quality::Minor,
            r.spec_scaler().spec_distances() == seq![0usize, 2, 3, 5, 7, 8, 10],
            r.spec_o() == Twelve,
            r.wf(),
    {
        let scale = Diatonic { key: *key, quality: Quality::Minor, distances: vec![0, 2, 3, 5, 7, 8, 10] };
        proof {
            crate::twelve_tet::lemma_twelve_classes_step(0);
            assert(scale.spec_distances() =~= seq![0usize, 2, 3, 5, 7, 8, 10]);
            assert forall|i: int| 0 <= i < 7 implies scale.spec_distances()[i] < 12 by {
                assert(scale.spec_distances()[i] == seq![0usize, 2, 3, 5, 7, 8, 10][i]);
            }
        }
        Scaled::new(scale, Twelve)
    }

    /// Whether the scale is major or minor.
    pub fn quality(&self) -> (q: Quality)
        ensures
            q == self.spec_quality(),
    {
        self.quality
    }
}

impl Scale for Diatonic {
    /// The octave positions the scale picks: each distance walked up from
    /// the key's step.
    open spec fn formula(&self) -> Seq<usize> {
        Seq::new(
            self.spec_distances().len(),
            |i: int| (self.spec_key().spec_step() + self.spec_distances()[i]) as usize,
        )
    }

    open spec fn swf(&self) -> bool {
        self.spec_distances().len() == 7 && forall|i: int| 0 <= i < 7
            ==> #[trigger] self.spec_distances()[i] < 12
    }

    fn convert(&self, number: usize) -> (r: usize)
        ensures
            r == self.formula()[number as int],
    {
        self.key.step() + self.distances[number]
    }

    fn len(&self) -> (n: usize)
        ensures
            n == self.formula().len(),
    {
        self.distances.len()
    }
}

impl PartialEq for Diatonic {
    /// Two diatonic scales are equal when key, quality, and distances agree.
    fn eq(&self, other: &Diatonic) -> (r: bool) {
        if !(self.key == other.key && self.quality == other.quality) {
            return false;
        }
        if self.distances.len() != other.distances.len() {
            return false;
        }
        let n = self.distances.len();
        let mut i: usize = 0;
        while i < n
            invariant
                i <= n,
                n == self.distances@.len(),
                n == other.distances@.len(),
                self.key == other.key,
                self.quality == other.quality,
                forall|j: int| 0 <= j < i ==> self.distances@[j] == other.distances@[j],
            decreases n - i,
        {
            if self.distances[i] != other.distances[i] {
                return false;
            }
            i = i + 1;
        }
        proof {
            assert(self.distances@ =~= other.distances@);
        }
        true
    }
}

impl vstd::std_specs::cmp::PartialEqSpecImpl for Diatonic {
    open spec fn obeys_eq_spec() -> bool {
        true
    }

    open spec fn eq_spec(&self, other: &Diatonic) -> bool {
        self.spec_key() == other.spec_key() && self.spec_quality() == other.spec_quality()
            && self.spec_distances() == other.spec_distances()
    }
}

impl PartialEq for Scaled<Diatonic, Twelve> {
    /// Two scaled diatonics are equal when their scales are.
    fn eq(&self, other: &Scaled<Diatonic, Twelve>) -> (r: bool) {
        self.scaler() == other.scaler()
    }
}

impl vstd::std_specs::cmp::PartialEqSpecImpl for Scaled<Diatonic, Twelve> {
    open spec fn obeys_eq_spec() -> bool {
        true
    }

    open spec fn eq_spec(&self, other: &Scaled<Diatonic, Twelve>) -> bool {
        self.spec_scaler().spec_key() == other.spec_scaler().spec_key()
            && self.spec_scaler().spec_quality() == other.spec_scaler().spec_quality()
            && self.spec_scaler().spec_distances() == other.spec_scaler().spec_distances()
    }
}

} // verus!
