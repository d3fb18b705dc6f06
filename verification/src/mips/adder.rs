//! The adder component of the datapath.

use vstd::prelude::*;

verus! {

pub struct Adder {}

impl Adder {
    pub fn new() -> Adder {
        Adder {}
    }

    /// Signed 32-bit addition; the caller guarantees the sum fits.
    pub fn add(&self, x: i32, y: i32) -> (r: i32)
        requires
            i32::MIN <= x + y <= i32::MAX,
        ensures
            r == x + y,
    {
        x + y
    }
}

} // verus!
