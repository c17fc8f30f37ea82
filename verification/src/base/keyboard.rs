//! Octave layouts, keyboards over them, and scale layering.
//!
//! An `Octave` lays pitch classes out in a fixed order; a `Keyboard` extends
//! one octave periodically over all note numbers. A `Scaled` octave picks
//! classes out of an underlying octave through a `Scale`'s formula, so a
//! keyboard over it walks the scale instead of the full octave.

use vstd::prelude::*;

use super::distance::{lemma_degree_eq, lemma_degree_from_value, Degree};
use super::number::{Cycle, Number};
use super::pitch::Pitch;

verus! {

/// The index of the first occurrence of `c` in `s`, if any.
pub open spec fn first_index_of<C>(s: Seq<C>, c: C) -> Option<int>
    decreases s.len(),
{
    if s.len() == 0 {
        None
    } else if s[0] == c {
        Some(0int)
    } else {
        match first_index_of(s.drop_first(), c) {
            Some(i) => Some(i + 1),
            None => None,
        }
    }
}

/// A position that matches `c`, with nothing matching before it, is the
/// first occurrence of `c`.
pub proof fn lemma_first_index_of_some<C>(s: Seq<C>, c: C, i: int)
    requires
        0 <= i < s.len(),
        s[i] == c,
        forall|j: int| 0 <= j < i ==> s[j] != c,
    ensures
        first_index_of(s, c) == Some(i),
    decreases s.len(),
{
    if i == 0 {
    } else {
        assert(s[0] != c);
        assert(s.drop_first()[i - 1] == s[i]);
        assert forall|j: int| 0 <= j < i - 1 implies s.drop_first()[j] != c by {
            assert(s.drop_first()[j] == s[j + 1]);
        }
        lemma_first_index_of_some(s.drop_first(), c, i - 1);
    }
}

/// A sequence with no occurrence of `c` has no first occurrence of it.
pub proof fn lemma_first_index_of_none<C>(s: Seq<C>, c: C)
    requires
        forall|j: int| 0 <= j < s.len() ==> s[j] != c,
    ensures
        first_index_of(s, c) is None,
    decreases s.len(),
{
    if s.len() == 0 {
    } else {
        assert forall|j: int| 0 <= j < s.len() - 1 implies s.drop_first()[j] != c by {
            assert(s.drop_first()[j] == s[j + 1]);
        }
        lemma_first_index_of_none(s.drop_first(), c);
    }
}

/// What `first_index_of` says about its result.
pub proof fn lemma_first_index_of_props<C>(s: Seq<C>, c: C)
    ensures
        match first_index_of(s, c) {
            Some(i) => 0 <= i < s.len() && s[i] == c && (forall|j: int| 0 <= j < i ==> s[j] != c),
            None => forall|j: int| 0 <= j < s.len() ==> s[j] != c,
        },
    decreases s.len(),
{
    if s.len() == 0 {
    } else if s[0] == c {
    } else {
        lemma_first_index_of_props(s.drop_first(), c);
        match first_index_of(s.drop_first(), c) {
            Some(i) => {
                assert(s.drop_first()[i] == s[i + 1]);
                assert forall|j: int| 0 <= j < i + 1 implies s[j] != c by {
                    if j > 0 {
                        assert(s.drop_first()[j - 1] == s[j]);
                    }
                }
            },
            None => {
                assert forall|j: int| 0 <= j < s.len() implies s[j] != c by {
                    if j > 0 {
                        assert(s.drop_first()[j - 1] == s[j]);
                    }
                }
            },
        }
    }
}

/// Cyclic closure of keyboards: class numbers a whole number of octaves
/// apart reduce to the same octave position, so `get_class` sounds the same
/// class for `n` and `n + k * len` — for every integer `k`, without bound.
pub proof fn lemma_class_number_cyclic(n: int, k: int, len: int)
    requires
        len >= 1,
    ensures
        (n + k * len) % len == n % len,
{
    vstd::arithmetic::div_mod::lemma_mod_multiples_vanish(k, n, len);
}

/// One octave of pitch classes, laid out in a fixed order.
pub trait Octave: Sized {
    /// The type of one pitch class on this octave.
    type Class;

    /// The classes of the octave, in order, as seen by specifications.
    spec fn classes(&self) -> Seq<Self::Class>;

    /// Whether the octave is fit for lookups.
    spec fn wf(&self) -> bool;

    /// The number of classes on the octave.
    fn len(&self) -> (n: usize)
        requires
            self.wf(),
        ensures
            n == self.classes().len(),
    ;

    /// The class at a cyclic position: the counter's walked distance is
    /// reduced modulo the octave length.
    fn get_class(&self, number: &Cycle) -> (c: Self::Class)
        requires
            self.wf(),
            self.classes().len() >= 1,
            number.spec_len() == self.classes().len(),
        ensures
            c == self.classes()[number.spec_inner() as int % self.classes().len() as int],
    ;

    /// The position of the first occurrence of `class` on the octave, if the
    /// octave holds it at all.
    fn get_number(&self, class: &Self::Class) -> (r: Option<usize>)
        requires
            self.wf(),
        ensures
            match r {
                Some(i) => i < self.classes().len() && self.classes()[i as int] == *class
                    && (forall|j: int| 0 <= j < i ==> self.classes()[j] != *class),
                None => forall|j: int| 0 <= j < self.classes().len() ==> self.classes()[j]
                    != *class,
            },
    ;

    /// Run-time equality of two classes, agreeing with specification
    /// equality.
    fn class_eq(a: &Self::Class, b: &Self::Class) -> (r: bool)
        ensures
            r == (a == b),
    ;

    /// Walks the octave's classes once, in order.
    fn iter(&self) -> (it: ClassIter<'_, Self>)
        requires
            self.wf(),
            self.classes().len() >= 1,
        ensures
            it.spec_oct() == self,
            it.spec_pos() == 0,
            it.spec_cycle_len() == self.classes().len(),
    {
        ClassIter { inner: self, cycle: Cycle::new(0, self.len()) }
    }
}

/// An iterator over one octave's classes, in layout order.
pub struct ClassIter<'a, Oct> {
    inner: &'a Oct,
    cycle: Cycle,
}

impl<'a, Oct> ClassIter<'a, Oct> {
    /// The octave being walked, as seen by specifications.
    pub closed spec fn spec_oct(self) -> &'a Oct {
        self.inner
    }

    /// How many classes were already handed out.
    pub closed spec fn spec_pos(self) -> usize {
        self.cycle.spec_inner()
    }

    /// The cycle length the iterator was built with.
    pub closed spec fn spec_cycle_len(self) -> usize {
        self.cycle.spec_len()
    }
}

impl<'a, Oct: Octave> ClassIter<'a, Oct> {
    /// An iterator fit for walking: its cycle matches its octave.
    pub open spec fn wf(self) -> bool {
        &&& self.spec_oct().wf()
        &&& self.spec_oct().classes().len() >= 1
        &&& self.spec_cycle_len() == self.spec_oct().classes().len()
    }

    /// The next class, or nothing once every class was handed out.
    pub fn next(&mut self) -> (r: Option<Oct::Class>)
        requires
            old(self).wf(),
        ensures
            final(self).spec_oct() == old(self).spec_oct(),
            final(self).spec_cycle_len() == old(self).spec_cycle_len(),
            if old(self).spec_pos() < old(self).spec_oct().classes().len() {
                (r matches Some(c) && c == old(self).spec_oct().classes()[old(self).spec_pos() as int])
                    && final(self).spec_pos() == old(self).spec_pos() + 1
            } else {
                r is None && final(self).spec_pos() == old(self).spec_pos()
            },
    {
        if self.cycle.has_cycled() {
            return None;
        }
        proof {
            assert(self.cycle.spec_inner() < self.cycle.spec_len());
            assert(self.spec_pos() < self.spec_oct().classes().len());
            assert(self.cycle.spec_inner() + 1 <= usize::MAX);
        }
        let cy = self.cycle;
        let class = self.inner.get_class(&cy);
        self.cycle.increment(1);
        proof {
            vstd::arithmetic::div_mod::lemma_small_mod(
                old(self).spec_pos() as nat,
                old(self).spec_oct().classes().len(),
            );
        }
        Some(class)
    }
}

impl Octave for Vec<usize> {
    type Class = usize;

    open spec fn classes(&self) -> Seq<usize> {
        self@
    }

    open spec fn wf(&self) -> bool {
        true
    }

    fn len(&self) -> (n: usize)
        ensures
            n == self.classes().len(),
    {
        self.len()
    }

    fn get_class(&self, number: &Cycle) -> (c: usize)
        ensures
            c == self.classes()[number.spec_inner() as int % self.classes().len() as int],
    {
        self[number.value()]
    }

    fn get_number(&self, class: &usize) -> (r: Option<usize>)
        ensures
            match r {
                Some(i) => i < self.classes().len() && self.classes()[i as int] == *class
                    && (forall|j: int| 0 <= j < i ==> self.classes()[j] != *class),
                None => forall|j: int| 0 <= j < self.classes().len() ==> self.classes()[j]
                    != *class,
            },
    {
        let n = self.len();
        let mut i: usize = 0;
        while i < n
            invariant
                i <= n,
                n == self@.len(),
                forall|j: int| 0 <= j < i ==> self@[j] != *class,
            decreases n - i,
        {
            if self[i] == *class {
                return Some(i);
            }
            i = i + 1;
        }
        None
    }

    fn class_eq(a: &usize, b: &usize) -> (r: bool)
        ensures
            r == (a == b),
    {
        *a == *b
    }
}

/// A keyboard: one octave repeated over all note numbers.
pub struct Keyboard<T>(T);

impl<T> Keyboard<T> {
    /// The octave the keyboard repeats, as seen by specifications.
    pub closed spec fn spec_oct(self) -> T {
        self.0
    }

    /// A keyboard repeating the octave `oct`.
    pub fn new(oct: T) -> (k: Keyboard<T>)
        ensures
            k.spec_oct() == oct,
    {
        Keyboard(oct)
    }
}

impl<Oct: Octave> Keyboard<Oct> {
    /// A keyboard fit for lookups: its octave is, and is not empty.
    pub open spec fn wf(self) -> bool {
        self.spec_oct().wf() && self.spec_oct().classes().len() >= 1
    }

    /// The note number a pitch stands on, if its class is on the octave:
    /// the class's position plus one octave length per octave.
    pub open spec fn spec_as_number(self, pitch: Pitch<Oct::Class>) -> Option<int> {
        match first_index_of(self.spec_oct().classes(), pitch.spec_class()) {
            Some(i) => Some(i + self.spec_oct().classes().len() * pitch.spec_oct()),
            None => None,
        }
    }

    /// The number of classes on the keyboard's octave: the keyboard's
    /// period.
    pub fn octave_len(&self) -> (n: usize)
        requires
            self.wf(),
        ensures
            n == self.spec_oct().classes().len(),
            n >= 1,
    {
        self.0.len()
    }

    /// The class a note number sounds: numbers wrap around the octave.
    pub fn get_class(&self, number: &impl Number) -> (c: Oct::Class)
        requires
            self.wf(),
        ensures
            c == self.spec_oct().classes()[number.spec_num() % self.spec_oct().classes().len() as int],
    {
        let cycle = Cycle::new(number.value(), self.0.len());
        self.0.get_class(&cycle)
    }

    /// The pitch a note number sounds: its class, in the octave reached
    /// after `number / len` full octaves.
    pub fn get_pitch(&self, number: &impl Number) -> (p: Pitch<Oct::Class>)
        requires
            self.wf(),
        ensures
            p.spec_class() == self.spec_oct().classes()[number.spec_num() % self.spec_oct().classes().len() as int],
            p.spec_oct() == number.spec_num() / self.spec_oct().classes().len() as int,
    {
        let class = self.get_class(number);
        let oct = number.value() / self.0.len();
        Pitch::new(class, oct)
    }

    /// The note number of a pitch, or nothing when its class is not on the
    /// octave.
    pub fn as_number(&self, pitch: &Pitch<Oct::Class>) -> (r: Option<usize>)
        requires
            self.wf(),
            self.spec_oct().classes().len() * (pitch.spec_oct() + 1) <= usize::MAX,
        ensures
            match r {
                Some(v) => self.spec_as_number(*pitch) == Some(v as int),
                None => self.spec_as_number(*pitch) is None,
            },
    {
        let len = self.0.len();
        match self.0.get_number(pitch.class()) {
            Some(x) => {
                proof {
                    lemma_first_index_of_some(
                        self.spec_oct().classes(),
                        pitch.spec_class(),
                        x as int,
                    );
                    assert(len * pitch.spec_oct() + len == len * (pitch.spec_oct() + 1))
                        by (nonlinear_arith);
                }
                Some(x + len * pitch.oct())
            },
            None => {
                proof {
                    lemma_first_index_of_none(self.spec_oct().classes(), pitch.spec_class());
                }
                None
            },
        }
    }

    /// Walks the keyboard's octave once, in order.
    pub fn class_iter(&self) -> (it: ClassIter<'_, Oct>)
        requires
            self.wf(),
        ensures
            *it.spec_oct() == self.spec_oct(),
            it.spec_pos() == 0,
            it.spec_cycle_len() == self.spec_oct().classes().len(),
    {
        self.0.iter()
    }
}

/// A selection of positions inside an octave: position `i` of the scale maps
/// to class number `formula[i]` of the octave underneath.
pub trait Scale: Sized {
    /// The class numbers the scale picks, in order, as seen by
    /// specifications.
    spec fn formula(&self) -> Seq<usize>;

    /// Whether the scale is fit for lookups.
    spec fn swf(&self) -> bool;

    /// The class number picked at scale position `number`.
    fn convert(&self, number: usize) -> (r: usize)
        requires
            self.swf(),
            number < self.formula().len(),
        ensures
            r == self.formula()[number as int],
    ;

    /// The number of positions the scale picks.
    fn len(&self) -> (n: usize)
        requires
            self.swf(),
        ensures
            n == self.formula().len(),
    ;
}

impl Scale for Vec<usize> {
    open spec fn formula(&self) -> Seq<usize> {
        self@
    }

    open spec fn swf(&self) -> bool {
        true
    }

    fn convert(&self, number: usize) -> (r: usize)
        ensures
            r == self.formula()[number as int],
    {
        self[number]
    }

    fn len(&self) -> (n: usize)
        ensures
            n == self.formula().len(),
    {
        self.len()
    }
}

/// An octave filtered through a scale: only the classes the scale picks
/// remain, in the scale's order.
#[derive(Debug)]
pub struct Scaled<S, O> {
    oct: O,
    scaler: S,
}

impl<S, O> Scaled<S, O> {
    /// The scale doing the picking, as seen by specifications.
    pub closed spec fn spec_scaler(self) -> S {
        self.scaler
    }

    /// The octave underneath, as seen by specifications.
    pub closed spec fn spec_o(self) -> O {
        self.oct
    }

    /// An octave `oct` filtered through `scale`.
    pub fn new(scale: S, oct: O) -> (r: Scaled<S, O>)
        ensures
            r.spec_scaler() == scale,
            r.spec_o() == oct,
    {
        Scaled { oct, scaler: scale }
    }

    /// The scale doing the picking.
    pub fn scaler(&self) -> (s: &S)
        ensures
            *s == self.spec_scaler(),
    {
        &self.scaler
    }

    /// The octave underneath.
    pub fn octave(&self) -> (o: &O)
        ensures
            *o == self.spec_o(),
    {
        &self.oct
    }
}

impl<S: Scale, O: Octave> Octave for Scaled<S, O> {
    type Class = O::Class;

    open spec fn classes(&self) -> Seq<O::Class> {
        Seq::new(
            self.spec_scaler().formula().len(),
            |i: int|
                self.spec_o().classes()[self.spec_scaler().formula()[i] as int % self.spec_o().classes().len() as int],
        )
    }

    open spec fn wf(&self) -> bool {
        self.spec_scaler().swf() && self.spec_o().wf() && self.spec_o().classes().len() >= 1
    }

    fn len(&self) -> (n: usize)
        ensures
            n == self.classes().len(),
    {
        self.scaler.len()
    }

    fn get_class(&self, number: &Cycle) -> (c: O::Class)
        ensures
            c == self.classes()[number.spec_inner() as int % self.classes().len() as int],
    {
        let idx = number.value();
        let conv = self.scaler.convert(idx);
        let cy = Cycle::new(conv, self.oct.len());
        self.oct.get_class(&cy)
    }

    fn get_number(&self, class: &O::Class) -> (r: Option<usize>)
        ensures
            match r {
                Some(i) => i < self.classes().len() && self.classes()[i as int] == *class
                    && (forall|j: int| 0 <= j < i ==> self.classes()[j] != *class),
                None => forall|j: int| 0 <= j < self.classes().len() ==> self.classes()[j]
                    != *class,
            },
    {
        if self.oct.get_number(class).is_none() {
            proof {
                assert forall|j: int| 0 <= j < self.classes().len() implies self.classes()[j]
                    != *class by {
                    let k = self.spec_scaler().formula()[j] as int
                        % self.spec_o().classes().len() as int;
                    assert(self.spec_o().classes()[k] != *class);
                }
            }
            return None;
        }
        let n = self.len();
        let mut i: usize = 0;
        while i < n
            invariant
                i <= n,
                n == self.classes().len(),
                self.wf(),
                forall|j: int| 0 <= j < i ==> self.classes()[j] != *class,
            decreases n - i,
        {
            let cur = self.get_class(&Cycle::new(i, n));
            proof {
                vstd::arithmetic::div_mod::lemma_small_mod(i as nat, n as nat);
            }
            if O::class_eq(&cur, class) {
                return Some(i);
            }
            i = i + 1;
        }
        None
    }

    fn class_eq(a: &O::Class, b: &O::Class) -> (r: bool)
        ensures
            r == (a == b),
    {
        O::class_eq(a, b)
    }
}

/// A way to measure how far apart two values stand.
pub trait Distance<T> {
    /// What a measurement yields.
    type Distance;

    /// When a measurement may be taken.
    spec fn measure_req(&self, from: T, to: T) -> bool;

    /// What the measurement yields, as seen by specifications.
    spec fn spec_measure(&self, from: T, to: T) -> Option<Self::Distance>;

    /// Measures from `from` to `to`.
    fn measure(&self, from: T, to: T) -> (r: Option<Self::Distance>)
        requires
            self.measure_req(from, to),
        ensures
            r == self.spec_measure(from, to),
    ;
}

impl<'p, S: Scale, O: Octave> Distance<&'p Pitch<O::Class>> for Keyboard<Scaled<S, O>> {
    type Distance = Degree;

    open spec fn measure_req(&self, from: &'p Pitch<O::Class>, to: &'p Pitch<O::Class>) -> bool {
        &&& self.wf()
        &&& self.spec_oct().classes().len() * (from.spec_oct() + 1) <= usize::MAX
        &&& self.spec_oct().classes().len() * (to.spec_oct() + 1) <= usize::MAX
    }

    /// The one-based degree from `from` up to `to`: nothing when either
    /// pitch is off the scale or `to` lies below `from`.
    open spec fn spec_measure(&self, from: &'p Pitch<O::Class>, to: &'p Pitch<O::Class>) -> Option<
        Degree,
    > {
        match (self.spec_as_number(*from), self.spec_as_number(*to)) {
            (Some(a), Some(b)) => if a <= b {
                Some(Degree::spec_from_value(b - a + 1))
            } else {
                None
            },
            _ => None,
        }
    }

    fn measure(&self, from: &'p Pitch<O::Class>, to: &'p Pitch<O::Class>) -> (r: Option<Degree>)
        ensures
            r == self.spec_measure(from, to),
    {
        let a = match self.as_number(from) {
            Some(a) => a,
            None => {
                return None;
            },
        };
        let b = match self.as_number(to) {
            Some(b) => b,
            None => {
                return None;
            },
        };
        proof {
            lemma_first_index_of_props(self.spec_oct().classes(), to.spec_class());
            let len = self.spec_oct().classes().len() as int;
            assert(len * to.spec_oct() + len == len * (to.spec_oct() + 1)) by (nonlinear_arith);
        }
        if a <= b {
            let d = match Degree::new(b - a + 1) {
                Ok(d) => d,
                Err(_) => {
                    proof {
                        assert(false);
                    }
                    return None;
                },
            };
            proof {
                lemma_degree_from_value(b - a + 1);
                lemma_degree_eq(d, Degree::spec_from_value(b - a + 1));
            }
            Some(d)
        } else {
            None
        }
    }
}

} // verus!
