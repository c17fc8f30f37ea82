//! Scale detection: the major scale that owns the most of a set of tones.

use vstd::prelude::*;

use crate::base::{Cycle, Octave, Scaled};
use crate::scale::diatonic::Quality;
use crate::scale::Diatonic;
use crate::twelve_tet::{
    lemma_twelve_classes_complete, lemma_twelve_classes_step, twelve_classes, Tone, Twelve,
};

verus! {

/// The degree distances of the major scale.
pub open spec fn spec_major_distances() -> Seq<usize> {
    seq![0usize, 2, 4, 5, 7, 9, 11]
}

/// Whether `t` lies on the major scale keyed on `key`: `t` is a canonical
/// class whose forward distance from the key is a major-scale distance.
pub open spec fn spec_major_member(key: Tone, t: Tone) -> bool {
    t.spec_is_canonical() && exists|i: int| 0 <= i < 7 && #[trigger] spec_major_distances()[i]
        as int == (t.spec_step() - key.spec_step()) % 12
}

/// How many of `tones` lie on the major scale keyed on `key`.
pub open spec fn spec_major_score(key: Tone, tones: Seq<Tone>) -> int
    decreases tones.len(),
{
    if tones.len() == 0 {
        0
    } else {
        spec_major_score(key, tones.drop_last()) + if spec_major_member(key, tones.last()) {
            1int
        } else {
            0int
        }
    }
}

/// Whether `tone` is one of the classes of a scaled twelve-tone octave.
pub open spec fn spec_scaled_member(s: Scaled<Diatonic, Twelve>, tone: Tone) -> bool {
    exists|i: int| 0 <= i < s.classes().len() && #[trigger] s.classes()[i] == tone
}

/// How many of `tones` are classes of a scaled twelve-tone octave.
pub open spec fn spec_scaled_score(s: Scaled<Diatonic, Twelve>, tones: Seq<Tone>) -> int
    decreases tones.len(),
{
    if tones.len() == 0 {
        0
    } else {
        spec_scaled_score(s, tones.drop_last()) + if spec_scaled_member(s, tones.last()) {
            1int
        } else {
            0int
        }
    }
}

/// Something that can say how well a set of tones matches it.
pub trait Detect {
    /// Whether `tone` lies on this scale, as seen by specifications.
    spec fn spec_on_scale(&self, tone: Tone) -> bool;

    /// How many of `tones` lie on this scale, as seen by specifications.
    spec fn spec_score(&self, tones: Seq<Tone>) -> int;

    /// When a score may be taken.
    spec fn score_req(&self) -> bool;

    /// How many of `tones` lie on this scale.
    fn score(&self, tones: &[Tone]) -> (n: i32)
        requires
            self.score_req(),
            tones@.len() <= i32::MAX,
        ensures
            n == self.spec_score(tones@),
    ;
}

impl Detect for Scaled<Diatonic, Twelve> {
    open spec fn spec_on_scale(&self, tone: Tone) -> bool {
        spec_scaled_member(*self, tone)
    }

    open spec fn spec_score(&self, tones: Seq<Tone>) -> int {
        spec_scaled_score(*self, tones)
    }

    open spec fn score_req(&self) -> bool {
        self.wf()
    }

    fn score(&self, tones: &[Tone]) -> (n: i32)
        ensures
            n == self.spec_score(tones@),
    {
        let len = tones.len();
        let mut count: i32 = 0;
        let mut i: usize = 0;
        proof {
            assert(tones@.take(0) =~= Seq::<Tone>::empty());
        }
        while i < len
            invariant
                i <= len,
                len == tones@.len(),
                len <= i32::MAX,
                self.wf(),
                0 <= count <= i,
                count == spec_scaled_score(*self, tones@.take(i as int)),
            decreases len - i,
        {
            let member = self.get_number(&tones[i]).is_some();
            proof {
                assert(tones@.take(i + 1).drop_last() =~= tones@.take(i as int));
                assert(tones@.take(i + 1).last() == tones@[i as int]);
                if member {
                    assert(spec_scaled_member(*self, tones@[i as int]));
                } else {
                    assert(!spec_scaled_member(*self, tones@[i as int]));
                }
            }
            if member {
                count = count + 1;
            }
            i = i + 1;
        }
        proof {
            assert(tones@.take(len as int) =~= tones@);
        }
        count
    }
}

/// On a major scale over the twelve-tone octave, being one of the scaled
/// classes is being a major-scale member of its key.
proof fn lemma_major_member_iff(s: Scaled<Diatonic, Twelve>, t: Tone)
    requires
        s.spec_scaler().spec_distances() == spec_major_distances(),
        s.spec_o() == Twelve,
    ensures
        spec_scaled_member(s, t) == spec_major_member(s.spec_scaler().spec_key(), t),
{
    let key = s.spec_scaler().spec_key().spec_step() as int;
    let dists = spec_major_distances();
    lemma_twelve_classes_step(0);
    vstd::arithmetic::div_mod::lemma_small_mod(key as nat, 12);
    if spec_scaled_member(s, t) {
        let i = choose|i: int| 0 <= i < s.classes().len() && #[trigger] s.classes()[i] == t;
        let d = dists[i] as int;
        let pos = (key + d) % 12;
        vstd::arithmetic::div_mod::lemma_mod_bound(key + d, 12);
        lemma_twelve_classes_step(pos);
        assert(t.spec_step() == pos && t.spec_is_canonical());
        assert((t.spec_step() - key) % 12 == d) by {
            vstd::arithmetic::div_mod::lemma_sub_mod_noop(key + d, key, 12);
            vstd::arithmetic::div_mod::lemma_small_mod(d as nat, 12);
        }
        assert(spec_major_member(s.spec_scaler().spec_key(), t));
    }
    if spec_major_member(s.spec_scaler().spec_key(), t) {
        let i = choose|i: int| 0 <= i < 7 && #[trigger] dists[i] as int == (t.spec_step() - key)
            % 12;
        let d = dists[i] as int;
        assert((key + d) % 12 == t.spec_step()) by {
            vstd::arithmetic::div_mod::lemma_add_mod_noop_right(key, t.spec_step() - key, 12);
            vstd::arithmetic::div_mod::lemma_small_mod(t.spec_step() as nat, 12);
        }
        lemma_twelve_classes_complete(t);
        assert(s.classes()[i] == t);
        assert(spec_scaled_member(s, t));
    }
}

/// On a major scale over the twelve-tone octave, the scaled score is the
/// major score of its key.
proof fn lemma_major_scale_score(s: Scaled<Diatonic, Twelve>, tones: Seq<Tone>)
    requires
        s.spec_scaler().spec_distances() == spec_major_distances(),
        s.spec_o() == Twelve,
    ensures
        spec_scaled_score(s, tones) == spec_major_score(s.spec_scaler().spec_key(), tones),
    decreases tones.len(),
{
    if tones.len() > 0 {
        lemma_major_scale_score(s, tones.drop_last());
        lemma_major_member_iff(s, tones.last());
    }
}

/// The major scale owning the most of `tones`: every candidate key of the
/// twelve-tone octave is tried, and among equally good keys the one on the
/// highest step wins.
pub fn detect_scale(tones: &[Tone]) -> (r: Scaled<Diatonic, Twelve>)
    requires
        tones@.len() <= i32::MAX,
    ensures
        r.spec_scaler().spec_quality() == Quality::Major,
        r.spec_scaler().spec_distances() == spec_major_distances(),
        r.spec_o() == Twelve,
        r.spec_scaler().spec_key().spec_is_canonical(),
        forall|k: int| 0 <= k < 12 ==> spec_major_score(#[trigger] twelve_classes()[k], tones@)
            <= spec_major_score(r.spec_scaler().spec_key(), tones@),
        forall|k: int| r.spec_scaler().spec_key().spec_step() < k < 12 ==> spec_major_score(
            #[trigger] twelve_classes()[k],
            tones@,
        ) < spec_major_score(r.spec_scaler().spec_key(), tones@),
{
    let tw = Twelve;
    proof {
        lemma_twelve_classes_step(0);
        vstd::arithmetic::div_mod::lemma_small_mod(0, 12);
    }
    let first_key = tw.get_class(&Cycle::new(0, 12));
    let first_scale = Diatonic::major(&first_key);
    let mut best_score = first_scale.score(tones);
    let mut best_key = first_key;
    proof {
        lemma_major_scale_score(first_scale, tones@);
        lemma_twelve_classes_step(0);
    }
    let mut k: usize = 1;
    while k < 12
        invariant
            1 <= k <= 12,
            tones@.len() <= i32::MAX,
            best_key == twelve_classes()[best_key.spec_step()],
            0 <= best_key.spec_step() < k,
            best_score == spec_major_score(best_key, tones@),
            forall|j: int| 0 <= j < k ==> spec_major_score(#[trigger] twelve_classes()[j], tones@)
                <= best_score as int,
            forall|j: int| best_key.spec_step() < j < k ==> spec_major_score(
                #[trigger] twelve_classes()[j],
                tones@,
            ) < best_score as int,
        decreases 12 - k,
    {
        proof {
            lemma_twelve_classes_step(0);
            vstd::arithmetic::div_mod::lemma_small_mod(k as nat, 12);
        }
        let key = tw.get_class(&Cycle::new(k, 12));
        let scale = Diatonic::major(&key);
        let s = scale.score(tones);
        proof {
            lemma_major_scale_score(scale, tones@);
            lemma_twelve_classes_step(k as int);
        }
        if s >= best_score {
            best_score = s;
            best_key = key;
        }
        k = k + 1;
    }
    proof {
        lemma_twelve_classes_step(best_key.spec_step() as int);
    }
    let r = Diatonic::major(&best_key);
    proof {
        lemma_major_scale_score(r, tones@);
    }
    r
}

} // verus!
