//! The whole- and half-step pattern of the major scale.

use vstd::prelude::*;

verus! {

/// The interval, in half steps, between step `i` of the scale and the next:
/// whole steps everywhere but after the third and seventh degrees.
pub open spec fn spec_major_scale_step(i: int) -> int {
    if i == 2 || i == 6 {
        1
    } else {
        2
    }
}

/// Walks the interval pattern of the major scale, one step at a time.
#[derive(Debug, Clone)]
pub struct MajorScaleWalker {
    index: usize,
}

impl Default for MajorScaleWalker {
    /// A walker standing before the first step.
    fn default() -> (w: MajorScaleWalker)
        ensures
            w.spec_pos() == 0,
    {
        MajorScaleWalker { index: 0 }
    }
}

impl MajorScaleWalker {
    /// How many steps were already walked.
    pub closed spec fn spec_pos(self) -> usize {
        self.index
    }

    /// The next interval of the pattern, or nothing once all 7 steps
    /// were walked.
    pub fn next(&mut self) -> (r: Option<i32>)
        requires
            old(self).spec_pos() <= 7,
        ensures
            if old(self).spec_pos() < 7 {
                (r matches Some(v) && v == spec_major_scale_step(old(self).spec_pos() as int))
                    && final(self).spec_pos() == old(self).spec_pos() + 1
            } else {
                r is None && final(self).spec_pos() == old(self).spec_pos()
            },
    {
        if self.index > 6 {
            return None;
        }
        let interval: i32 = if self.index == 2 || self.index == 6 {
            1
        } else {
            2
        };
        self.index = self.index + 1;
        Some(interval)
    }
}

} // verus!
