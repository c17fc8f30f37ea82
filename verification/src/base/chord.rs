//! Chords: a root and further members, resolved through keyboards.

use vstd::prelude::*;

use super::distance::{lemma_degree_eq, lemma_degree_from_value, Degree};
use super::keyboard::{Keyboard, Octave, Scale, Scaled};
use super::pitch::Pitch;

verus! {

/// A chord: a root member and the other members above it, in order.
#[derive(Debug, Clone)]
pub struct Chord<T> {
    root: T,
    other: Vec<T>,
}

impl<T> Chord<T> {
    /// The root member, as seen by specifications.
    pub closed spec fn spec_root(self) -> T {
        self.root
    }

    /// The members above the root, in order, as seen by specifications.
    pub closed spec fn spec_other(self) -> Seq<T> {
        self.other@
    }

    /// A chord rooted on `root` with `other` stacked above it.
    pub fn new(root: T, other: Vec<T>) -> (c: Chord<T>)
        ensures
            c.spec_root() == root,
            c.spec_other() == other@,
    {
        Chord { root, other }
    }

    /// The root member.
    pub fn root(&self) -> (r: &T)
        ensures
            *r == self.spec_root(),
    {
        &self.root
    }

    /// The members above the root, in order.
    pub fn other(&self) -> (o: &Vec<T>)
        ensures
            o@ == self.spec_other(),
    {
        &self.other
    }

    /// All members in order, the root first.
    pub fn into_vec(self) -> (v: Vec<T>)
        ensures
            v@ == seq![self.spec_root()] + self.spec_other(),
    {
        let mut vec = self.other;
        vec.insert(0, self.root);
        proof {
            assert(vec@ =~= seq![self.spec_root()] + self.spec_other());
        }
        vec
    }
}

impl Chord<Degree> {
    /// Resolves a chord of degrees to pitches on a keyboard: the root sounds
    /// at its own zero-based position, each other member at the root's
    /// position plus its own.
    pub fn to_pitch<O: Octave>(&self, key: &Keyboard<O>) -> (r: Chord<Pitch<O::Class>>)
        requires
            key.wf(),
            forall|i: int| 0 <= i < self.spec_other().len()
                ==> self.spec_root().spec_value() + #[trigger] self.spec_other()[i].spec_value()
                <= usize::MAX,
        ensures
            ({
                let len = key.spec_oct().classes().len() as int;
                &&& r.spec_root().spec_class() == key.spec_oct().classes()[(self.spec_root().spec_value() - 1) % len]
                &&& r.spec_root().spec_oct() == (self.spec_root().spec_value() - 1) / len
                &&& r.spec_other().len() == self.spec_other().len()
                &&& forall|i: int| 0 <= i < self.spec_other().len() ==> {
                    let n = self.spec_root().spec_value() + self.spec_other()[i].spec_value() - 2;
                    (#[trigger] r.spec_other()[i]).spec_class() == key.spec_oct().classes()[n % len]
                        && r.spec_other()[i].spec_oct() == n / len
                }
            }),
    {
        let root = key.get_pitch(&self.root);
        let root_value = self.root.value();
        let mut other: Vec<Pitch<O::Class>> = Vec::new();
        let mut i: usize = 0;
        let n = self.other.len();
        while i < n
            invariant
                i <= n,
                n == self.spec_other().len(),
                key.wf(),
                root_value == self.spec_root().spec_value(),
                root_value >= 1,
                forall|j: int| 0 <= j < n
                    ==> root_value + #[trigger] self.spec_other()[j].spec_value() <= usize::MAX,
                other@.len() == i,
                forall|j: int| 0 <= j < i ==> {
                    let m = self.spec_root().spec_value() + self.spec_other()[j].spec_value() - 2;
                    let len = key.spec_oct().classes().len() as int;
                    (#[trigger] other@[j]).spec_class() == key.spec_oct().classes()[m % len]
                        && other@[j].spec_oct() == m / len
                },
            decreases n - i,
        {
            let x = self.other[i].value();
            let p = key.get_pitch(&(root_value + x - 2));
            other.push(p);
            i = i + 1;
        }
        Chord { root, other }
    }
}

impl<T> Chord<Pitch<T>> {
    /// Measures a chord of pitches back into degrees against a scaled
    /// keyboard: the root's degree counts from the keyboard's first class,
    /// each other member's degree counts from the root, and both wrap around
    /// the scale, so a member an octave up keeps its degree. Nothing is
    /// returned when any member's class is off the scale.
    pub fn to_degree<S: Scale, O: Octave<Class = T>>(&self, keyboard: &Keyboard<Scaled<S, O>>) -> (r:
        Option<Chord<Degree>>)
        requires
            keyboard.wf(),
            keyboard.spec_oct().classes().len() * (self.spec_root().spec_oct() + 1) <= usize::MAX,
            forall|i: int| 0 <= i < self.spec_other().len()
                ==> keyboard.spec_oct().classes().len() * ((#[trigger] self.spec_other()[i]).spec_oct()
                + 1) <= usize::MAX,
        ensures
            ({
                let len = keyboard.spec_oct().classes().len() as int;
                match keyboard.spec_as_number(self.spec_root()) {
                    Some(a) => match r {
                        Some(chord) => {
                            &&& chord.spec_root().spec_value() == a % len + 1
                            &&& chord.spec_other().len() == self.spec_other().len()
                            &&& forall|i: int| 0 <= i < self.spec_other().len() ==> {
                                &&& keyboard.spec_as_number(#[trigger] self.spec_other()[i]) is Some
                                &&& chord.spec_other()[i].spec_value() == (
                                keyboard.spec_as_number(self.spec_other()[i])->Some_0 - a) % len + 1
                            }
                        },
                        None => exists|i: int| 0 <= i < self.spec_other().len()
                            && keyboard.spec_as_number(#[trigger] self.spec_other()[i]) is None,
                    },
                    None => r is None,
                }
            }),
    {
        let len = keyboard.octave_len();
        let root_num = match keyboard.as_number(&self.root) {
            Some(a) => a,
            None => {
                return None;
            },
        };
        let root_deg = match Degree::new(root_num % len + 1) {
            Ok(d) => d,
            Err(_) => {
                proof {
                    assert(false);
                }
                return None;
            },
        };
        proof {
            lemma_degree_from_value(root_num as int % len as int + 1);
            lemma_degree_eq(root_deg, Degree::spec_from_value(root_num as int % len as int + 1));
        }
        let mut others: Vec<Degree> = Vec::new();
        let mut i: usize = 0;
        let n = self.other.len();
        while i < n
            invariant
                i <= n,
                n == self.spec_other().len(),
                keyboard.wf(),
                len == keyboard.spec_oct().classes().len(),
                len >= 1,
                keyboard.spec_as_number(self.spec_root()) == Some(root_num as int),
                forall|j: int| 0 <= j < n
                    ==> keyboard.spec_oct().classes().len() * ((#[trigger] self.spec_other()[j]).spec_oct()
                    + 1) <= usize::MAX,
                others@.len() == i,
                forall|j: int| 0 <= j < i ==> {
                    &&& keyboard.spec_as_number(#[trigger] self.spec_other()[j]) is Some
                    &&& others@[j].spec_value() == (keyboard.spec_as_number(self.spec_other()[j])->Some_0
                        - root_num) % len as int + 1
                },
            decreases n - i,
        {
            let num = match keyboard.as_number(&self.other[i]) {
                Some(b) => b,
                None => {
                    return None;
                },
            };
            let wrapped = if num >= root_num {
                (num - root_num) % len
            } else {
                proof {
                    lemma_wrapped_diff(num as int, root_num as int, len as int);
                }
                let back = (root_num - num) % len;
                if back == 0 {
                    0
                } else {
                    len - back
                }
            };
            let deg = match Degree::new(wrapped + 1) {
                Ok(d) => d,
                Err(_) => {
                    proof {
                        assert(false);
                    }
                    return None;
                },
            };
            proof {
                lemma_degree_from_value(wrapped as int + 1);
                lemma_degree_eq(deg, Degree::spec_from_value(wrapped as int + 1));
            }
            others.push(deg);
            i = i + 1;
        }
        Some(Chord { root: root_deg, other: others })
    }
}

/// The unsigned wrap-around of a backward difference: when `b` lies below
/// `a`, subtracting the backward remainder from the cycle length lands on
/// the floored modulo of `b - a`.
proof fn lemma_wrapped_diff(b: int, a: int, len: int)
    requires
        len >= 1,
        b < a,
    ensures
        (a - b) % len == 0 ==> (b - a) % len == 0,
        (a - b) % len != 0 ==> (b - a) % len == len - (a - b) % len,
{
    let d = a - b;
    let back = d % len;
    vstd::arithmetic::div_mod::lemma_fundamental_div_mod(d, len);
    vstd::arithmetic::div_mod::lemma_mod_bound(d, len);
    let q = d / len;
    if back == 0 {
        assert((-q) * len == -(len * q)) by (nonlinear_arith);
        assert(b - a == (-q) * len + 0);
        vstd::arithmetic::div_mod::lemma_fundamental_div_mod_converse_mod(b - a, len, -q, 0);
    } else {
        assert((-q - 1) * len == -(len * q) - len) by (nonlinear_arith);
        assert(b - a == (-q - 1) * len + (len - back));
        vstd::arithmetic::div_mod::lemma_fundamental_div_mod_converse_mod(
            b - a,
            len,
            -q - 1,
            len - back,
        );
    }
}

} // verus!
