//! Chords named by a root and a quality, resolved to concrete tones.

use vstd::prelude::*;

use crate::base::{Interval, Keyboard, Pitch};
use crate::twelve_tet::{
    lemma_twelve_classes_complete, lemma_twelve_classes_step, twelve_classes, Tone, Twelve,
};

verus! {

/// The quality of a chord: which intervals sound above its root.
#[derive(Debug, Clone, Copy, PartialEq, Eq, Structural, Hash)]
pub enum Quality {
    Major,
    Minor,
    Dim,
    Aug,
    Major7,
    Minor7,
}

/// The chromatic distances above the root that a quality sounds.
pub open spec fn spec_quality_intervals(q: Quality) -> Seq<int> {
    match q {
        Quality::Major => seq![4, 7],
        Quality::Minor => seq![3, 7],
        Quality::Dim => seq![3, 6],
        Quality::Aug => seq![4, 8],
        Quality::Major7 => seq![4, 7, 11],
        Quality::Minor7 => seq![3, 7, 11],
    }
}

impl Quality {
    /// All six qualities, in a fixed order.
    pub fn enumerate() -> (v: Vec<Quality>)
        ensures
            v@ == seq![
                Quality::Major,
                Quality::Minor,
                Quality::Dim,
                Quality::Aug,
                Quality::Major7,
                Quality::Minor7,
            ],
    {
        let v = vec![
            Quality::Major,
            Quality::Minor,
            Quality::Dim,
            Quality::Aug,
            Quality::Major7,
            Quality::Minor7,
        ];
        proof {
            assert(v@ =~= seq![
                Quality::Major,
                Quality::Minor,
                Quality::Dim,
                Quality::Aug,
                Quality::Major7,
                Quality::Minor7,
            ]);
        }
        v
    }

    /// The intervals the quality sounds above the root, as upward distances.
    pub fn intervals(&self) -> (v: Vec<Interval>)
        ensures
            v@.len() == spec_quality_intervals(*self).len(),
            forall|i: int| 0 <= i < v@.len() ==> (#[trigger] v@[i]).spec_signed()
                == spec_quality_intervals(*self)[i],
    {
        let v = match self {
            Quality::Major => vec![Interval::new(0, 4), Interval::new(0, 7)],
            Quality::Minor => vec![Interval::new(0, 3), Interval::new(0, 7)],
            Quality::Dim => vec![Interval::new(0, 3), Interval::new(0, 6)],
            Quality::Aug => vec![Interval::new(0, 4), Interval::new(0, 8)],
            Quality::Major7 => vec![Interval::new(0, 4), Interval::new(0, 7), Interval::new(0, 11)],
            Quality::Minor7 => vec![Interval::new(0, 3), Interval::new(0, 7), Interval::new(0, 11)],
        };
        proof {
            assert forall|i: int| 0 <= i < v@.len() implies (#[trigger] v@[i]).spec_signed()
                == spec_quality_intervals(*self)[i] by {
                assert(spec_quality_intervals(*self)[i] == v@[i].spec_signed());
            }
        }
        v
    }
}

/// A chord named by its root and its quality.
#[derive(Debug, Clone, Copy, PartialEq, Eq, Structural, Hash)]
pub struct Chord<T> {
    root: T,
    quality: Quality,
}

impl<T> Chord<T> {
    /// The root, as seen by specifications.
    pub closed spec fn spec_root(self) -> T {
        self.root
    }

    /// The quality, as seen by specifications.
    pub closed spec fn spec_quality(self) -> Quality {
        self.quality
    }

    /// The chord of `quality` rooted on `root`.
    pub fn new(root: T, quality: Quality) -> (c: Chord<T>)
        ensures
            c.spec_root() == root,
            c.spec_quality() == quality,
    {
        Chord { root, quality }
    }
}

impl Chord<Tone> {
    /// Spells the chord out as pitch classes: the root followed by the
    /// canonical class on each of the quality's intervals above it.
    pub fn into_class(self) -> (r: crate::base::Chord<Tone>)
        ensures
            r.spec_root() == self.spec_root(),
            r.spec_other().len() == spec_quality_intervals(self.spec_quality()).len(),
            forall|i: int| 0 <= i < r.spec_other().len() ==> #[trigger] r.spec_other()[i]
                == twelve_classes()[(self.spec_root().spec_step() + spec_quality_intervals(
                self.spec_quality(),
            )[i]) % 12],
    {
        let keyboard: Keyboard<Twelve> = Keyboard::new(Twelve);
        proof {
            lemma_twelve_classes_step(0);
        }
        let intervals = self.quality.intervals();
        let root_value = self.root.step();
        let mut others: Vec<Tone> = Vec::new();
        let mut i: usize = 0;
        let n = intervals.len();
        while i < n
            invariant
                i <= n,
                n == intervals@.len(),
                n == spec_quality_intervals(self.spec_quality()).len(),
                keyboard.wf(),
                keyboard.spec_oct() == Twelve,
                root_value == self.spec_root().spec_step(),
                root_value < 12,
                forall|j: int| 0 <= j < n ==> (#[trigger] intervals@[j]).spec_signed()
                    == spec_quality_intervals(self.spec_quality())[j],
                forall|j: int| 0 <= j < n ==> 0 < (#[trigger] intervals@[j]).spec_signed() < 12,
                others@.len() == i,
                forall|j: int| 0 <= j < i ==> #[trigger] others@[j] == twelve_classes()[(
                self.spec_root().spec_step() + spec_quality_intervals(self.spec_quality())[j])
                    % 12],
            decreases n - i,
        {
            let iv = intervals[i].value();
            let number = root_value + iv;
            let class = keyboard.get_class(&number);
            proof {
                lemma_twelve_classes_step(0);
            }
            others.push(class);
            i = i + 1;
        }
        crate::base::Chord::new(self.root, others)
    }
}

impl Chord<Pitch<Tone>> {
    /// Spells the chord out as pitches: the root pitch followed by the pitch
    /// on each of the quality's intervals above it, octaves included.
    ///
    /// The root's class must be canonical (a natural or a sharp): only those
    /// classes have a place on the twelve-class keyboard.
    pub fn into_pitch(self) -> (r: crate::base::Chord<Pitch<Tone>>)
        requires
            self.spec_root().spec_class().spec_is_canonical(),
            12 * (self.spec_root().spec_oct() + 1) + 11 <= usize::MAX,
        ensures
            ({
                let root_num = self.spec_root().spec_class().spec_step() + 12
                    * self.spec_root().spec_oct();
                &&& r.spec_root() == self.spec_root()
                &&& r.spec_other().len() == spec_quality_intervals(self.spec_quality()).len()
                &&& forall|i: int| 0 <= i < r.spec_other().len() ==> {
                    let n = root_num + spec_quality_intervals(self.spec_quality())[i];
                    (#[trigger] r.spec_other()[i]).spec_class() == twelve_classes()[n % 12]
                        && r.spec_other()[i].spec_oct() == n / 12
                }
            }),
    {
        let keyboard: Keyboard<Twelve> = Keyboard::new(Twelve);
        proof {
            lemma_twelve_classes_step(0);
            lemma_twelve_classes_complete(self.spec_root().spec_class());
            assert forall|j: int| 0 <= j < self.spec_root().spec_class().spec_step()
                implies twelve_classes()[j] != self.spec_root().spec_class() by {
                lemma_twelve_classes_step(j);
            }
            crate::base::lemma_first_index_of_some(
                twelve_classes(),
                self.spec_root().spec_class(),
                self.spec_root().spec_class().spec_step(),
            );
        }
        let root_value = match keyboard.as_number(&self.root) {
            Some(x) => x,
            None => {
                proof {
                    assert(false);
                }
                return crate::base::Chord::new(self.root, Vec::new());
            },
        };
        let intervals = self.quality.intervals();
        let mut others: Vec<Pitch<Tone>> = Vec::new();
        let mut i: usize = 0;
        let n = intervals.len();
        while i < n
            invariant
                i <= n,
                n == intervals@.len(),
                n == spec_quality_intervals(self.spec_quality()).len(),
                keyboard.wf(),
                keyboard.spec_oct() == Twelve,
                root_value == self.spec_root().spec_class().spec_step() + 12
                    * self.spec_root().spec_oct(),
                root_value + 11 <= usize::MAX,
                forall|j: int| 0 <= j < n ==> (#[trigger] intervals@[j]).spec_signed()
                    == spec_quality_intervals(self.spec_quality())[j],
                forall|j: int| 0 <= j < n ==> 0 < (#[trigger] intervals@[j]).spec_signed() < 12,
                others@.len() == i,
                forall|j: int| 0 <= j < i ==> {
                    let m = self.spec_root().spec_class().spec_step() + 12
                        * self.spec_root().spec_oct() + spec_quality_intervals(
                        self.spec_quality(),
                    )[j];
                    (#[trigger] others@[j]).spec_class() == twelve_classes()[m % 12]
                        && others@[j].spec_oct() == m / 12
                },
            decreases n - i,
        {
            let iv = intervals[i].value();
            let number = root_value + iv;
            let p = keyboard.get_pitch(&number);
            proof {
                lemma_twelve_classes_step(0);
            }
            others.push(p);
            i = i + 1;
        }
        crate::base::Chord::new(self.root, others)
    }
}

} // verus!
