//! The step pattern of the minor pentatonic scale.

use vstd::prelude::*;

verus! {

/// The interval, in half steps, between step `i` of the scale and the next:
/// minor thirds on the first and fourth steps, whole steps elsewhere.
pub open spec fn spec_minor_pentatonic_step(i: int) -> int {
    if i == 0 || i == 3 {
        3
    } else {
        2
    }
}

/// Walks the interval pattern of the minor pentatonic scale, one step at a time.
#[derive(Debug, Clone)]
pub struct MinorPentatonicScaleWalker {
    index: usize,
}

impl Default for MinorPentatonicScaleWalker {
    /// A walker standing before the first step.
    fn default() -> (w: MinorPentatonicScaleWalker)
        ensures
            w.spec_pos() == 0,
    {
        MinorPentatonicScaleWalker { index: 0 }
    }
}

impl MinorPentatonicScaleWalker {
    /// How many steps were already walked.
    pub closed spec fn spec_pos(self) -> usize {
        self.index
    }

    /// The next interval of the pattern, or nothing once all 5 steps
    /// were walked.
    pub fn next(&mut self) -> (r: Option<i32>)
        requires
            old(self).spec_pos() <= 5,
        ensures
            if old(self).spec_pos() < 5 {
                (r matches Some(v) && v == spec_minor_pentatonic_step(old(self).spec_pos() as int))
                    && final(self).spec_pos() == old(self).spec_pos() + 1
            } else {
                r is None && final(self).spec_pos() == old(self).spec_pos()
            },
    {
        if self.index > 4 {
            return None;
        }
        let interval: i32 = if self.index == 0 || self.index == 3 {
            3
        } else {
            2
        };
        self.index = self.index + 1;
        Some(interval)
    }
}

} // verus!
