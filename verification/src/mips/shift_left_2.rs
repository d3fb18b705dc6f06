//! The shift-left-two unit that scales word offsets to byte addresses.

use vstd::prelude::*;

verus! {

pub struct ShiftLeftTwo {}

impl ShiftLeftTwo {
    pub fn new() -> ShiftLeftTwo {
        ShiftLeftTwo {}
    }

    /// Multiplies by four; the caller guarantees the result fits in 32 bits.
    pub fn shift(&self, target: u32) -> (r: u32)
        requires
            4 * target <= u32::MAX,
        ensures
            r == 4 * target,
    {
        target * 4
    }
}

} // verus!
