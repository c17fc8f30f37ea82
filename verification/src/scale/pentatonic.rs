//! The pentatonic scales: major and minor over twelve-tone equal
//! temperament.

use vstd::prelude::*;

use crate::base::{Octave, Scale, Scaled};
use crate::twelve_tet::{Tone, Twelve};

verus! {

/// Whether a pentatonic scale is major or minor.
#[derive(Debug, Clone, Copy, PartialEq, Eq, Structural)]
pub enum Quality {
    Major,
    Minor,
}

/// A pentatonic scale: a key tone and the five chromatic distances of its
/// degrees from the key.
#[derive(Debug, Clone)]
pub struct Pentatonic {
    key: Tone,
    quality: Quality,
    distances: Vec<usize>,
}

impl Pentatonic {
    /// The key tone, as seen by specifications.
    pub closed spec fn spec_key(self) -> Tone {
        self.key
    }

    /// The quality, as seen by specifications.
    pub closed spec fn spec_quality(self) -> Quality {
        self.quality
    }

    /// The degree distances from the key, as seen by specifications.
    pub closed spec fn spec_distances(self) -> Seq<usize> {
        self.distances@
    }

    /// The major pentatonic scale on `key`, as a scaled twelve-tone octave:
    /// the degree distances are 0, 2, 4, 7, 9.
    pub fn major(key: &Tone) -> (r: Scaled<Pentatonic, Twelve>)
        ensures
            r.spec_scaler().spec_key() == *key,
            r.spec_scaler().spec_quality() == Quality::Major,
            r.spec_scaler().spec_distances() == seq![0usize, 2, 4, 7, 9],
            r.spec_o() == Twelve,
            r.wf(),
    {
        let scale = Pentatonic { key: *key, quality: Quality::Major, distances: vec![0, 2, 4, 7, 9] };
        proof {
            crate::twelve_tet::lemma_twelve_classes_step(0);
            assert(scale.spec_distances() =~= seq![0usize, 2, 4, 7, 9]);
            assert forall|i: int| 0 <= i < 5 implies scale.spec_distances()[i] < 12 by {
                assert(scale.spec_distances()[i] == seq![0usize, 2, 4, 7, 9][i]);
            }
        }
        Scaled::new(scale, Twelve)
    }

    /// The minor pentatonic scale on `key`, as a scaled twelve-tone octave:
    /// the degree distances are 0, 3, 5, 7, 10.
    pub fn minor(key: &Tone) -> (r: Scaled<Pentatonic, Twelve>)
        ensures
            r.spec_scaler().spec_key() == *key,
            r.spec_scaler().spec_quality() == Quality::Minor,
            r.spec_scaler().spec_distances() == seq![0usize, 3, 5, 7, 10],
            r.spec_o() == Twelve,
            r.wf(),
    {
        let scale = Pentatonic { key: *key, quality: Quality::Minor, distances: vec![0, 3, 5, 7, 10] };
        proof {
            crate::twelve_tet::lemma_twelve_classes_step(0);
            assert(scale.spec_distances() =~= seq![0usize, 3, 5, 7, 10]);
            assert forall|i: int| 0 <= i < 5 implies scale.spec_distances()[i] < 12 by {
                assert(scale.spec_distances()[i] == seq![0usize, 3, 5, 7, 10][i]);
            }
        }
        Scaled::new(scale, Twelve)
    }

    /// Whether the scale is major or minor.
    pub fn quality(&self) -> (q: Quality)
        ensures
            q == self.spec_quality(),
    {
        self.quality
    }
}

impl Scale for Pentatonic {
    /// The octave positions the scale picks: each distance walked up from
    /// the key's step.
    open spec fn formula(&self) -> Seq<usize> {
        Seq::new(
            self.spec_distances().len(),
            |i: int| (self.spec_key().spec_step() + self.spec_distances()[i]) as usize,
        )
    }

    open spec fn swf(&self) -> bool {
        self.spec_distances().len() == 5 && forall|i: int| 0 <= i < 5
            ==> #[trigger] self.spec_distances()[i] < 12
    }

    fn convert(&self, number: usize) -> (r: usize)
        ensures
            r == self.formula()[number as int],
    {
        self.key.step() + self.distances[number]
    }

    fn len(&self) -> (n: usize)
        ensures
            n == self.formula().len(),
    {
        self.distances.len()
    }
}

} // verus!
