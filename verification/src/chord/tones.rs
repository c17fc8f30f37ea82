//! Chord tones and avoid tones, derived from a scale.
//!
//! A chord of degrees resolves through a scale to concrete tones, root
//! first. The avoid tones of such a chord are the scale tones a half step
//! away from some chord tone: for every chord tone, both chromatic
//! neighbours are tried in order (lower first, then upper), kept when they
//! lie on the scale, and deduplicated keeping the first occurrence.

use vstd::prelude::*;

use crate::base::{Chord, Degree};
use crate::chroma::Tone;
use crate::scale::Scale;

verus! {

/// The step sounded by the chord's member `i`: its root for 0, its other
/// members above.
pub open spec fn spec_chord_step(scale: Scale, chord: Chord<Degree>, i: int) -> int {
    if i == 0 {
        scale.spec_step_for_degree(chord.spec_root().spec_value() as int)
    } else {
        scale.spec_step_for_degree(chord.spec_other()[i - 1].spec_value() as int)
    }
}

/// The avoid-note candidates, in trial order: for each chord tone in chord
/// order, its lower chromatic neighbour and then its upper one.
pub open spec fn spec_avoid_candidates(scale: Scale, chord: Chord<Degree>) -> Seq<int> {
    Seq::new(
        2 * (1 + chord.spec_other().len()),
        |j: int|
            scale.spec_chroma().spec_step_at(
                spec_chord_step(scale, chord, j / 2) + if j % 2 == 0 {
                    -1int
                } else {
                    1int
                },
            ),
    )
}

/// The avoid steps among the first `n` candidates: a candidate is kept when
/// it lies on the scale and was not kept before.
pub open spec fn spec_avoid_prefix(scale: Scale, cands: Seq<int>, n: int) -> Seq<int>
    decreases n,
{
    if n <= 0 {
        Seq::empty()
    } else {
        let prev = spec_avoid_prefix(scale, cands, n - 1);
        let s = cands[n - 1];
        if scale.spec_member_step(s) && !prev.contains(s) {
            prev.push(s)
        } else {
            prev
        }
    }
}

/// The steps of a sequence of tones.
pub open spec fn spec_tone_steps(v: Seq<Tone>) -> Seq<int> {
    Seq::new(v.len(), |i: int| v[i].spec_step() as int)
}

/// Whether `t` occurs in `v`.
fn tone_in(v: &Vec<Tone>, t: &Tone) -> (r: bool)
    ensures
        r == v@.contains(*t),
{
    let n = v.len();
    let mut i: usize = 0;
    while i < n
        invariant
            i <= n,
            n == v@.len(),
            forall|j: int| 0 <= j < i ==> v@[j] != *t,
        decreases n - i,
    {
        if v[i] == *t {
            return true;
        }
        i = i + 1;
    }
    false
}

/// Resolves a chord of degrees through a scale: the tone of each degree, in
/// chord order, the root first.
pub fn chord_tones(scale: &Scale, chord: &Chord<Degree>) -> (v: Vec<Tone>)
    requires
        chord.spec_other().len() < usize::MAX,
    ensures
        v@.len() == 1 + chord.spec_other().len(),
        forall|i: int| 0 <= i < v@.len() ==> (#[trigger] v@[i]).spec_step() == spec_chord_step(
            *scale,
            *chord,
            i,
        ) && v@[i].spec_chroma_size() == scale.spec_chroma().spec_size(),
{
    let mut v: Vec<Tone> = Vec::new();
    v.push(scale.tone_for_degree(chord.root()));
    let others = chord.other();
    let n = others.len();
    let mut i: usize = 0;
    while i < n
        invariant
            i <= n,
            n == chord.spec_other().len(),
            others@ == chord.spec_other(),
            v@.len() == 1 + i,
            forall|j: int| 0 <= j < v@.len() ==> (#[trigger] v@[j]).spec_step() == spec_chord_step(
                *scale,
                *chord,
                j,
            ) && v@[j].spec_chroma_size() == scale.spec_chroma().spec_size(),
        decreases n - i,
    {
        let t = scale.tone_for_degree(&others[i]);
        v.push(t);
        i = i + 1;
    }
    v
}

/// The avoid tones of a chord over a scale: every scale tone one chromatic
/// step away from some chord tone, tried in chord order (lower neighbour
/// first), deduplicated keeping the first occurrence.
pub fn avoid_tones(scale: &Scale, chord: &Chord<Degree>) -> (v: Vec<Tone>)
    requires
        2 * (1 + chord.spec_other().len()) <= usize::MAX,
    ensures
        ({
            let cands = spec_avoid_candidates(*scale, *chord);
            let avoid = spec_avoid_prefix(*scale, cands, cands.len() as int);
            &&& v@.len() == avoid.len()
            &&& forall|i: int| 0 <= i < v@.len() ==> (#[trigger] v@[i]).spec_step() == avoid[i]
                && v@[i].spec_chroma_size() == scale.spec_chroma().spec_size()
        }),
{
    let tones = chord_tones(scale, chord);
    let ghost cands = spec_avoid_candidates(*scale, *chord);
    let ghost size = scale.spec_chroma().spec_size();
    let n = tones.len();
    let m = 2 * n;
    let mut v: Vec<Tone> = Vec::new();
    let mut k: usize = 0;
    proof {
        assert(spec_tone_steps(v@) =~= spec_avoid_prefix(*scale, cands, 0));
    }
    while k < m
        invariant
            k <= m,
            m == 2 * n,
            n == 1 + chord.spec_other().len(),
            n == tones@.len(),
            cands == spec_avoid_candidates(*scale, *chord),
            cands.len() == m,
            size == scale.spec_chroma().spec_size(),
            forall|j: int| 0 <= j < n ==> (#[trigger] tones@[j]).spec_step() == spec_chord_step(
                *scale,
                *chord,
                j,
            ) && tones@[j].spec_chroma_size() == size,
            spec_tone_steps(v@) == spec_avoid_prefix(*scale, cands, k as int),
            forall|j: int| 0 <= j < v@.len() ==> (#[trigger] v@[j]).spec_chroma_size() == size,
        decreases m - k,
    {
        let t = tones[k / 2];
        let delta: i64 = if k % 2 == 0 {
            -1
        } else {
            1
        };
        let nb = t.transpose(delta);
        proof {
            assert(nb.spec_step() == cands[k as int]);
        }
        if scale.is_member(&nb) {
            if !tone_in(&v, &nb) {
                proof {
                    let steps = spec_tone_steps(v@);
                    assert(!steps.contains(nb.spec_step() as int)) by {
                        if steps.contains(nb.spec_step() as int) {
                            let j = choose|j: int|
                                0 <= j < steps.len() && steps[j] == nb.spec_step() as int;
                            crate::chroma::lemma_tone_eq(v@[j], nb);
                            assert(v@.contains(nb));
                        }
                    }
                }
                v.push(nb);
                proof {
                    assert(spec_tone_steps(v@) =~= spec_avoid_prefix(
                        *scale,
                        cands,
                        k as int + 1,
                    ));
                }
            } else {
                proof {
                    let steps = spec_tone_steps(v@);
                    assert(steps.contains(nb.spec_step() as int)) by {
                        let j = choose|j: int| 0 <= j < v@.len() && v@[j] == nb;
                        assert(steps[j] == nb.spec_step() as int);
                    }
                    assert(spec_tone_steps(v@) =~= spec_avoid_prefix(*scale, cands, k as int + 1));
                }
            }
        } else {
            proof {
                assert(spec_tone_steps(v@) =~= spec_avoid_prefix(*scale, cands, k as int + 1));
            }
        }
        k = k + 1;
    }
    proof {
        let avoid = spec_avoid_prefix(*scale, cands, cands.len() as int);
        assert(spec_tone_steps(v@) == avoid);
        assert forall|i: int| 0 <= i < v@.len() implies (#[trigger] v@[i]).spec_step() == avoid[i]
            && v@[i].spec_chroma_size() == size by {
            assert(spec_tone_steps(v@)[i] == v@[i].spec_step() as int);
        }
    }
    v
}

} // verus!
