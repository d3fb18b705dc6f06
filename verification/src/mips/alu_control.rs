//! The ALU control unit: maps the two ALU-op control bits and the funct field
//! of the instruction to the four-bit operation select of the ALU.

use vstd::prelude::*;

verus! {

/// The funct values that select an R-type ALU operation.
pub open spec fn rtype_funct_supported(funct_field: u8) -> bool {
    funct_field == 32 || funct_field == 8 || funct_field == 34 || funct_field == 36 || funct_field
        == 37 || funct_field == 42 || funct_field == 3 || funct_field == 2 || funct_field == 0
        || funct_field == 39
}

/// The four-bit ALU operation select for an R-type instruction, by funct.
pub open spec fn spec_rtype_signal(funct_field: u8) -> u8
    recommends
        rtype_funct_supported(funct_field),
{
    if funct_field == 32 || funct_field == 8 {
        2
    } else if funct_field == 34 {
        6
    } else if funct_field == 36 {
        0
    } else if funct_field == 37 {
        1
    } else if funct_field == 42 {
        7
    } else if funct_field == 3 {
        13
    } else if funct_field == 2 {
        14
    } else if funct_field == 0 {
        0
    } else {
        12
    }
}

/// The four-bit ALU operation select, from the two ALU-op bits and funct.
pub open spec fn spec_alu_signal(alu_op_0: bool, alu_op_1: bool, funct_field: u8) -> u8
    recommends
        alu_op_1 && !alu_op_0 ==> rtype_funct_supported(funct_field),
{
    if alu_op_1 && alu_op_0 {
        1
    } else if alu_op_1 && !alu_op_0 {
        spec_rtype_signal(funct_field)
    } else if alu_op_0 {
        6
    } else {
        2
    }
}

pub fn get_alu_signal(alu_op_0: bool, alu_op_1: bool, funct_field: u8) -> (r: u8)
    requires
        alu_op_1 && !alu_op_0 ==> rtype_funct_supported(funct_field),
    ensures
        r == spec_alu_signal(alu_op_0, alu_op_1, funct_field),
{
    if alu_op_1 && alu_op_0 {
        return 1;
    }
    if alu_op_1 && !alu_op_0 {
        get_rtype_signal(funct_field)
    } else {
        if alu_op_0 {
            return 6;
        }
        2
    }
}

pub fn get_rtype_signal(funct_field: u8) -> (r: u8)
    requires
        rtype_funct_supported(funct_field),
    ensures
        r == spec_rtype_signal(funct_field),
{
    match funct_field {
        32 | 8 => 2,
        34 => 6,
        36 => 0,
        37 => 1,
        42 => 7,
        3 => 13,
        2 => 14,
        0 => 0,
        39 => 12,
        _ => {
            proof {
                assert(false);
            }
            2
        },
    }
}

} // verus!
