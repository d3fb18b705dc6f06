//! The ALU of the MIPS processor: selects an operation from the four-bit
//! control signal, performs it, and keeps a zero flag.

use crate::word::{i32_of_u32, spec_sra, spec_srl, u32_of_i32};
use vstd::prelude::*;
use vstd::wrapping::i32_specs;

verus! {

/// The four-bit operation selects that the ALU accepts.
pub open spec fn alu_signal_valid(signal: u8) -> bool {
    signal == 0 || signal == 1 || signal == 2 || signal == 6 || signal == 7 || signal == 12
        || signal == 13 || signal == 14
}

/// What each ALU operation returns: 0 AND, 1 OR, 2 signed add (wrapping),
/// 6 signed subtract (wrapping), 7 set-on-less-than, 12 NOR, 13 arithmetic
/// right shift, 14 logical right shift.
pub open spec fn spec_alu_result(signal: u8, operand_1: i32, operand_2: i32) -> i32
    recommends
        alu_signal_valid(signal),
        signal == 13 || signal == 14 ==> 0 <= operand_2 < 32,
{
    if signal == 0 {
        i32_of_u32(u32_of_i32(operand_1) & u32_of_i32(operand_2))
    } else if signal == 1 {
        i32_of_u32(u32_of_i32(operand_1) | u32_of_i32(operand_2))
    } else if signal == 2 {
        i32_specs::wrapping_add(operand_1, operand_2)
    } else if signal == 6 {
        i32_specs::wrapping_sub(operand_1, operand_2)
    } else if signal == 7 {
        if operand_1 < operand_2 {
            1
        } else {
            0
        }
    } else if signal == 12 {
        i32_of_u32(!(u32_of_i32(operand_1) | u32_of_i32(operand_2)))
    } else if signal == 13 && 0 <= operand_2 < 32 {
        spec_sra(operand_1, operand_2 as nat)
    } else if signal == 14 && 0 <= operand_2 < 32 {
        spec_srl(operand_1, operand_2 as nat)
    } else {
        0
    }
}

pub struct Alu {
    zero: bool,
}

impl Alu {
    pub fn new() -> (r: Alu)
        ensures
            !r.zero_flag(),
    {
        Alu { zero: false }
    }

    /// The zero flag: set when the most recent result was 0.
    pub closed spec fn zero_flag(&self) -> bool {
        self.zero
    }

    /// Performs the selected operation and updates the zero flag.
    pub fn perform_op(&mut self, operand_1: i32, operand_2: i32, alu_signal: u8) -> (res: i32)
        requires
            alu_signal_valid(alu_signal),
            alu_signal == 13 || alu_signal == 14 ==> 0 <= operand_2 < 32,
        ensures
            res == spec_alu_result(alu_signal, operand_1, operand_2),
            final(self).zero_flag() == (res == 0),
    {
        let res: i32 = match alu_signal {
            0 => crate::word::from_bits(crate::word::to_bits(operand_1) & crate::word::to_bits(
                operand_2,
            )),
            1 => crate::word::from_bits(crate::word::to_bits(operand_1) | crate::word::to_bits(
                operand_2,
            )),
            2 => operand_1.wrapping_add(operand_2),
            6 => operand_1.wrapping_sub(operand_2),
            7 => if operand_1 < operand_2 {
                1
            } else {
                0
            },
            12 => crate::word::from_bits(
                !(crate::word::to_bits(operand_1) | crate::word::to_bits(operand_2)),
            ),
            13 => crate::word::exec_sra(operand_1, operand_2 as u32),
            14 => crate::word::exec_srl(operand_1, operand_2 as u32),
            _ => {
                proof {
                    assert(false);
                }
                0
            },
        };
        self.zero = res == 0;
        res
    }

    pub fn zero(&self) -> (r: bool)
        ensures
            r == self.zero_flag(),
    {
        self.zero
    }
}

} // verus!
