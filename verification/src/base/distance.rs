//! Signed intervals between note numbers, and scale degrees.

use vstd::prelude::*;

use super::number::Number;

verus! {

/// The signed distance between two note numbers: its magnitude is the number
/// of steps, its sign the direction of travel.
#[derive(Debug, Clone, Copy, PartialEq, Eq, PartialOrd, Ord, Structural, Hash)]
pub struct Interval(i32);

impl Interval {
    /// The signed number of steps, as seen by specifications.
    pub closed spec fn spec_signed(self) -> i32 {
        self.0
    }

    /// The signed interval walking from `a` up (or down) to `b`.
    pub fn new(a: usize, b: usize) -> (r: Interval)
        requires
            a <= i32::MAX,
            b <= i32::MAX,
        ensures
            r.spec_signed() == b - a,
    {
        if a > b {
            Interval(-((a - b) as i32))
        } else {
            Interval((b - a) as i32)
        }
    }

    /// The magnitude: how many steps the interval spans.
    pub fn value(&self) -> (v: usize)
        requires
            self.spec_signed() > i32::MIN,
        ensures
            v == if self.spec_signed() >= 0 {
                self.spec_signed() as int
            } else {
                -self.spec_signed() as int
            },
    {
        if self.0 >= 0 {
            self.0 as usize
        } else {
            (-self.0) as usize
        }
    }

    /// The direction of travel: `1` upward, `-1` downward, `0` for none.
    pub fn direction(&self) -> (d: i32)
        ensures
            self.spec_signed() > 0 ==> d == 1,
            self.spec_signed() == 0 ==> d == 0,
            self.spec_signed() < 0 ==> d == -1,
    {
        if self.0 > 0 {
            1
        } else if self.0 == 0 {
            0
        } else {
            -1
        }
    }
}

impl From<i32> for Interval {
    /// The interval spanning `value` signed steps.
    fn from(value: i32) -> (r: Interval)
        ensures
            r.spec_signed() == value,
    {
        Interval(value)
    }
}

impl vstd::std_specs::convert::FromSpecImpl<i32> for Interval {
    open spec fn obeys_from_spec() -> bool {
        true
    }

    closed spec fn from_spec(t: i32) -> Interval {
        Interval(t)
    }
}

/// A value tried to become a `Degree` but was not positive.
#[derive(Debug, Clone, Copy, PartialEq, Eq, Structural)]
pub struct DegreeConstructError;

/// A one-based position inside a scale formula: degree 1 is the key itself.
///
/// Construction rejects zero, so every degree that exists is at least 1.
#[derive(Debug, Clone, Copy, PartialEq, Eq, PartialOrd, Ord, Structural, Hash)]
pub struct Degree(usize);

impl Degree {
    /// A degree is never below 1.
    #[verifier::type_invariant]
    pub closed spec fn inv(self) -> bool {
        self.0 >= 1
    }

    /// The one-based value, as seen by specifications.
    pub closed spec fn spec_value(self) -> usize {
        self.0
    }

    /// The degree standing on the one-based value `v`, as a specification
    /// value.
    pub closed spec fn spec_from_value(v: int) -> Degree {
        Degree(v as usize)
    }

    /// Builds the degree `value`, rejecting anything below 1.
    pub fn new(value: usize) -> (r: Result<Degree, DegreeConstructError>)
        ensures
            value >= 1 ==> (r matches Ok(d) && d.spec_value() == value),
            value < 1 ==> (r matches Err(e) && e == DegreeConstructError),
    {
        if value < 1 {
            Err(DegreeConstructError)
        } else {
            Ok(Degree(value))
        }
    }

    /// The one-based value.
    pub fn value(&self) -> (v: usize)
        ensures
            v == self.spec_value(),
            v >= 1,
    {
        proof {
            use_type_invariant(self);
        }
        self.0
    }
}

/// A degree is nothing more than its value: two degrees with the same value
/// are the same degree.
pub proof fn lemma_degree_eq(a: Degree, b: Degree)
    requires
        a.spec_value() == b.spec_value(),
    ensures
        a == b,
{
}

/// Values that fit in a machine word pass through `spec_from_value`
/// unchanged.
pub proof fn lemma_degree_from_value(v: int)
    requires
        0 <= v <= usize::MAX,
    ensures
        Degree::spec_from_value(v).spec_value() == v,
{
}

impl Number for Degree {
    /// As a note number a degree is zero-based: degree 1 stands on position 0.
    open spec fn spec_num(&self) -> int {
        self.spec_value() - 1
    }

    fn value(&self) -> (v: usize)
        ensures
            v == self.spec_num(),
    {
        proof {
            use_type_invariant(self);
        }
        self.0 - 1
    }
}

} // verus!
