//! A two-way multiplexor: a stored select signal chooses between two inputs.

use vstd::prelude::*;

verus! {

pub struct Multiplexor {
    signal: bool,
}

impl Multiplexor {
    /// A fresh multiplexor with the select signal cleared.
    pub fn new() -> (r: Multiplexor)
        ensures
            !r.signal(),
    {
        Multiplexor { signal: false }
    }

    /// The stored select signal.
    pub closed spec fn signal(&self) -> bool {
        self.signal
    }

    pub fn set_signal(&mut self, signal: bool)
        ensures
            final(self).signal() == signal,
    {
        self.signal = signal;
    }

    pub fn get_signal(&self) -> (r: bool)
        ensures
            r == self.signal(),
    {
        self.signal
    }

    /// Selects the first input when the signal is set, the second otherwise.
    pub fn multiplex(&self, val_1: Option<i32>, val_2: i32) -> (r: i32)
        requires
            self.signal() ==> val_1 is Some,
        ensures
            r == if self.signal() {
                val_1->0
            } else {
                val_2
            },
    {
        if self.signal {
            return val_1.unwrap();
        }
        val_2
    }
}

} // verus!
