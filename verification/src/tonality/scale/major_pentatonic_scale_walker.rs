//! The step pattern of the major pentatonic scale.

use vstd::prelude::*;

verus! {

/// The interval, in half steps, between step `i` of the scale and the next:
/// a minor third after the third degree, whole steps elsewhere.
pub open spec fn spec_major_pentatonic_step(i: int) -> int {
    if i == 2 {
        3
    } else {
        2
    }
}

/// Walks the interval pattern of the major pentatonic scale, one step at a time.
#[derive(Debug, Clone)]
pub struct MajorPentatonicScaleWalker {
    index: usize,
}

impl Default for MajorPentatonicScaleWalker {
    /// A walker standing before the first step.
    fn default() -> (w: MajorPentatonicScaleWalker)
        ensures
            w.spec_pos() == 0,
    {
        MajorPentatonicScaleWalker { index: 0 }
    }
}

impl MajorPentatonicScaleWalker {
    /// How many steps were already walked.
    pub closed spec fn spec_pos(self) -> usize {
        self.index
    }

    /// The next interval of the pattern, or nothing once all 5 steps
    /// were walked.
    pub fn next(&mut self) -> (r: Option<i32>)
        requires
            old(self).spec_pos() <= 5,
        ensures
            if old(self).spec_pos() < 5 {
                (r matches Some(v) && v == spec_major_pentatonic_step(old(self).spec_pos() as int))
                    && final(self).spec_pos() == old(self).spec_pos() + 1
            } else {
                r is None && final(self).spec_pos() == old(self).spec_pos()
            },
    {
        if self.index > 4 {
            return None;
        }
        let interval: i32 = if self.index == 2 {
            3
        } else {
            2
        };
        self.index = self.index + 1;
        Some(interval)
    }
}

} // verus!
