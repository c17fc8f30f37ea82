//! The seven note letters and the three accidentals.

use vstd::prelude::*;

use super::{Divided, Pitch};

verus! {

/// The seven note letters, a cycle of seven positions.
#[derive(Debug, Clone, Copy, PartialEq, Eq, PartialOrd, Ord, Structural, Hash)]
pub enum ToneSymbol {
    C,
    D,
    E,
    F,
    G,
    A,
    B,
}

/// The accidental attached to a note letter.
#[derive(Debug, Clone, Copy, PartialEq, Eq, PartialOrd, Ord, Structural, Hash)]
pub enum AccidentalSymbol {
    Flat,
    Natural,
    Sharp,
}

impl Divided for ToneSymbol {
    open spec fn spec_divided() -> int {
        7
    }

    open spec fn spec_index(&self) -> int {
        match *self {
            ToneSymbol::C => 0,
            ToneSymbol::D => 1,
            ToneSymbol::E => 2,
            ToneSymbol::F => 3,
            ToneSymbol::G => 4,
            ToneSymbol::A => 5,
            ToneSymbol::B => 6,
        }
    }

    fn num_devided() -> (n: usize)
        ensures
            n == Self::spec_divided(),
    {
        7
    }

    fn index(&self) -> (i: usize)
        ensures
            i == self.spec_index(),
    {
        match *self {
            ToneSymbol::C => 0,
            ToneSymbol::D => 1,
            ToneSymbol::E => 2,
            ToneSymbol::F => 3,
            ToneSymbol::G => 4,
            ToneSymbol::A => 5,
            ToneSymbol::B => 6,
        }
    }
}

impl Pitch for ToneSymbol {
    open spec fn spec_canon(i: int) -> ToneSymbol {
        if i == 0 {
            ToneSymbol::C
        } else if i == 1 {
            ToneSymbol::D
        } else if i == 2 {
            ToneSymbol::E
        } else if i == 3 {
            ToneSymbol::F
        } else if i == 4 {
            ToneSymbol::G
        } else if i == 5 {
            ToneSymbol::A
        } else {
            ToneSymbol::B
        }
    }

    fn transpose(self, t: i32) -> (r: ToneSymbol)
        ensures
            r == Self::spec_canon((self.spec_index() + t) % Self::spec_divided()),
    {
        let i = self.index();
        let x: i64 = i as i64 + t as i64;
        let m: i64 = x.checked_rem_euclid(7).unwrap();
        match m {
            0 => ToneSymbol::C,
            1 => ToneSymbol::D,
            2 => ToneSymbol::E,
            3 => ToneSymbol::F,
            4 => ToneSymbol::G,
            5 => ToneSymbol::A,
            _ => ToneSymbol::B,
        }
    }
}

impl From<usize> for ToneSymbol {
    /// The letter on position `value mod 7` of the letter cycle.
    fn from(value: usize) -> (r: ToneSymbol) {
        let m = value % 7;
        match m {
            0 => ToneSymbol::C,
            1 => ToneSymbol::D,
            2 => ToneSymbol::E,
            3 => ToneSymbol::F,
            4 => ToneSymbol::G,
            5 => ToneSymbol::A,
            _ => ToneSymbol::B,
        }
    }
}

impl vstd::std_specs::convert::FromSpecImpl<usize> for ToneSymbol {
    open spec fn obeys_from_spec() -> bool {
        true
    }

    open spec fn from_spec(t: usize) -> ToneSymbol {
        <ToneSymbol as Pitch>::spec_canon(t as int % 7)
    }
}

} // verus!
