//! Note numbers and cyclic counting.

use vstd::prelude::*;

verus! {

/// A plain note number, such as a MIDI-style index: anything that can say
/// which non-negative position it stands on.
pub trait Number: Sized {
    /// The position this number stands on, as seen by specifications.
    spec fn spec_num(&self) -> int;

    /// The position this number stands on.
    fn value(&self) -> (v: usize)
        ensures
            v == self.spec_num(),
    ;
}

impl Number for u8 {
    open spec fn spec_num(&self) -> int {
        *self as int
    }

    fn value(&self) -> (v: usize)
        ensures
            v == self.spec_num(),
    {
        *self as usize
    }
}

impl Number for usize {
    open spec fn spec_num(&self) -> int {
        *self as int
    }

    fn value(&self) -> (v: usize)
        ensures
            v == self.spec_num(),
    {
        *self
    }
}

/// A counter walking around a cycle of `len` positions: it remembers how far
/// it has walked in total and reduces to a position on demand. A cycle of
/// zero positions cannot exist: there would be nothing to reduce onto.
#[derive(Debug, Clone, Copy)]
pub struct Cycle {
    inner: usize,
    len: usize,
}

impl Cycle {
    /// Every counter walks a cycle of at least one position.
    #[verifier::type_invariant]
    pub closed spec fn inv(self) -> bool {
        self.len >= 1
    }

    /// The total distance walked, as seen by specifications.
    pub closed spec fn spec_inner(self) -> usize {
        self.inner
    }

    /// The length of the cycle, as seen by specifications.
    pub closed spec fn spec_len(self) -> usize {
        self.len
    }

    /// A counter that has walked `inner` positions around a cycle of `len`
    /// positions; a cycle of zero positions is no cycle.
    pub fn new(inner: usize, len: usize) -> (c: Cycle)
        requires
            len >= 1,
        ensures
            c.spec_inner() == inner,
            c.spec_len() == len,
    {
        Cycle { inner, len }
    }

    /// The position on the cycle: the distance walked, reduced modulo the
    /// cycle length.
    pub fn value(&self) -> (v: usize)
        ensures
            v == self.spec_inner() % self.spec_len(),
    {
        proof {
            use_type_invariant(self);
        }
        self.inner % self.len
    }

    /// Walks `value` more positions.
    pub fn increment(&mut self, value: usize)
        requires
            old(self).spec_inner() + value <= usize::MAX,
        ensures
            final(self).spec_inner() == old(self).spec_inner() + value,
            final(self).spec_len() == old(self).spec_len(),
    {
        proof {
            use_type_invariant(&*self);
        }
        self.inner = self.inner + value;
    }

    /// Whether the counter has walked at least one full cycle.
    pub fn has_cycled(&self) -> (r: bool)
        ensures
            r == (self.spec_inner() >= self.spec_len()),
    {
        self.inner >= self.len
    }
}

} // verus!
