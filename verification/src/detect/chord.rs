//! Chord detection: the degrees a set of tones forms over a scale.

use vstd::prelude::*;

use crate::base::{Chord, Degree};
use crate::chroma::Tone;
use crate::scale::Scale;

verus! {

/// The degree values the tones resolve to, in order: tones off the scale
/// are passed over.
pub open spec fn spec_detected_degrees(scale: Scale, tones: Seq<Tone>) -> Seq<int>
    decreases tones.len(),
{
    if tones.len() == 0 {
        Seq::empty()
    } else {
        let prev = spec_detected_degrees(scale, tones.drop_last());
        match scale.spec_degree_for_tone(tones.last()) {
            Some(d) => prev.push(d),
            None => prev,
        }
    }
}

/// The chord the tones form over the scale: each tone's degree, in order,
/// tones off the scale passed over, the first found degree as the root.
/// Nothing is returned when no tone lies on the scale.
pub fn detect_chord(scale: &Scale, tones: &[Tone]) -> (r: Option<Chord<Degree>>)
    requires
        forall|i: int| 0 <= i < tones@.len() ==> (#[trigger] tones@[i]).spec_chroma_size()
            == scale.spec_chroma().spec_size(),
    ensures
        ({
            let degs = spec_detected_degrees(*scale, tones@);
            match r {
                Some(c) => degs.len() >= 1 && c.spec_root().spec_value() == degs[0]
                    && c.spec_other().len() == degs.len() - 1 && forall|i: int|
                    0 <= i < degs.len() - 1 ==> (#[trigger] c.spec_other()[i]).spec_value() == degs[
                    i + 1],
                None => degs.len() == 0,
            }
        }),
{
    let len = tones.len();
    let mut found: Vec<Degree> = Vec::new();
    let mut i: usize = 0;
    proof {
        assert(tones@.take(0) =~= Seq::<Tone>::empty());
    }
    while i < len
        invariant
            i <= len,
            len == tones@.len(),
            forall|j: int| 0 <= j < len ==> (#[trigger] tones@[j]).spec_chroma_size()
                == scale.spec_chroma().spec_size(),
            found@.len() == spec_detected_degrees(*scale, tones@.take(i as int)).len(),
            forall|j: int| 0 <= j < found@.len() ==> (#[trigger] found@[j]).spec_value()
                == spec_detected_degrees(*scale, tones@.take(i as int))[j],
        decreases len - i,
    {
        let d = scale.degree_for_tone(&tones[i]);
        proof {
            assert(tones@.take(i + 1).drop_last() =~= tones@.take(i as int));
            assert(tones@.take(i + 1).last() == tones@[i as int]);
        }
        match d {
            Some(deg) => {
                found.push(deg);
            },
            None => {},
        }
        i = i + 1;
    }
    proof {
        assert(tones@.take(len as int) =~= tones@);
    }
    if found.len() == 0 {
        return None;
    }
    let root = found[0];
    let mut others: Vec<Degree> = Vec::new();
    let mut j: usize = 1;
    let m = found.len();
    while j < m
        invariant
            1 <= j <= m,
            m == found@.len(),
            others@.len() == j - 1,
            forall|t: int| 0 <= t < j - 1 ==> others@[t] == found@[t + 1],
        decreases m - j,
    {
        others.push(found[j]);
        j = j + 1;
    }
    Some(Chord::new(root, others))
}

} // verus!
