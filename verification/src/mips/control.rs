//! The control unit of the MIPS processor: maps the opcode (and, for opcode 0,
//! the funct field) to the thirteen control signals of the datapath.

use vstd::prelude::*;

verus! {

/// The thirteen control signals, one field per bit of the control vector
/// (MSB to LSB): exit, shift, jump_reg, jump, reg_dest, alu_src, mem_to_reg,
/// reg_write, mem_read, mem_write, branch, alu_op_1, alu_op_0.
#[derive(Clone, Copy, Debug, PartialEq, Eq, Structural)]
pub struct Control {
    pub exit: bool,
    pub shift: bool,
    pub jump_reg: bool,
    pub jump: bool,
    pub reg_dest: bool,
    pub branch: bool,
    pub mem_read: bool,
    pub mem_to_reg: bool,
    pub alu_op_0: bool,
    pub alu_op_1: bool,
    pub mem_write: bool,
    pub alu_src: bool,
    pub reg_write: bool,
}

/// The opcodes that the control unit decodes: 0 (R-family), 35 (lw), 43 (sw),
/// 4 (beq), 8 (addi), 13 (ori), 2 (j) and 63 (exit).
pub open spec fn opcode_supported(op_bits: u8) -> bool {
    op_bits == 0 || op_bits == 35 || op_bits == 43 || op_bits == 4 || op_bits == 8 || op_bits == 13
        || op_bits == 2 || op_bits == 63
}

/// The control vector as a record of booleans, from a 13-bit pattern.
pub open spec fn spec_control_of_pattern(p: u16) -> Control {
    Control {
        exit: p / 4096 % 2 == 1,
        shift: p / 2048 % 2 == 1,
        jump_reg: p / 1024 % 2 == 1,
        jump: p / 512 % 2 == 1,
        reg_dest: p / 256 % 2 == 1,
        alu_src: p / 128 % 2 == 1,
        mem_to_reg: p / 64 % 2 == 1,
        reg_write: p / 32 % 2 == 1,
        mem_read: p / 16 % 2 == 1,
        mem_write: p / 8 % 2 == 1,
        branch: p / 4 % 2 == 1,
        alu_op_1: p / 2 % 2 == 1,
        alu_op_0: p % 2 == 1,
    }
}

/// The 13-bit control pattern decoded from opcode and funct.
pub open spec fn spec_control_pattern(op_bits: u8, funct_bits: u8) -> u16
    recommends
        opcode_supported(op_bits),
{
    if op_bits == 0 {
        if funct_bits == 8 {
            1024  // jr: jump_reg
        } else if funct_bits == 3 || funct_bits == 2 {
            2338  // sra, srl: shift, reg_dest, reg_write, alu_op_1
        } else {
            290  // other R-type: reg_dest, reg_write, alu_op_1
        }
    } else if op_bits == 35 {
        240  // lw: alu_src, mem_to_reg, reg_write, mem_read
    } else if op_bits == 43 {
        136  // sw: alu_src, mem_write
    } else if op_bits == 4 {
        5  // beq: branch, alu_op_0
    } else if op_bits == 8 {
        160  // addi: alu_src, reg_write
    } else if op_bits == 13 {
        163  // ori: alu_src, reg_write, alu_op_1, alu_op_0
    } else if op_bits == 2 {
        512  // j: jump
    } else {
        4096  // exit
    }
}

/// The control vector decoded from opcode and funct.
pub open spec fn spec_control(op_bits: u8, funct_bits: u8) -> Control
    recommends
        opcode_supported(op_bits),
{
    spec_control_of_pattern(spec_control_pattern(op_bits, funct_bits))
}

impl Control {
    /// A fresh control unit with every signal cleared.
    pub fn new() -> (r: Control)
        ensures
            r == spec_control_of_pattern(0),
    {
        Control {
            exit: false,
            shift: false,
            jump_reg: false,
            jump: false,
            reg_dest: false,
            branch: false,
            mem_read: false,
            mem_to_reg: false,
            alu_op_0: false,
            alu_op_1: false,
            mem_write: false,
            alu_src: false,
            reg_write: false,
        }
    }

    /// Decodes the opcode (and funct, for opcode 0) into the signal bits.
    pub fn set_output_flags(&mut self, op_bits: u8, funct_bits: u8)
        requires
            opcode_supported(op_bits),
        ensures
            *final(self) == spec_control(op_bits, funct_bits),
    {
        match op_bits {
            0 => {
                match funct_bits {
                    8 => self.set_output_flags_to_pattern(1024),
                    3 => self.set_output_flags_to_pattern(2338),
                    2 => self.set_output_flags_to_pattern(2338),
                    _ => self.set_output_flags_to_pattern(290),
                }
            },
            35 => self.set_output_flags_to_pattern(240),
            43 => self.set_output_flags_to_pattern(136),
            4 => self.set_output_flags_to_pattern(5),
            8 => self.set_output_flags_to_pattern(160),
            13 => self.set_output_flags_to_pattern(163),
            2 => self.set_output_flags_to_pattern(512),
            63 => self.set_output_flags_to_pattern(4096),
            _ => {
                proof {
                    assert(false);
                }
            },
        }
    }

    fn set_output_flags_to_pattern(&mut self, output_pattern: u16)
        ensures
            *final(self) == spec_control_of_pattern(output_pattern),
    {
        self.exit = output_pattern / 4096 % 2 == 1;
        self.shift = output_pattern / 2048 % 2 == 1;
        self.jump_reg = output_pattern / 1024 % 2 == 1;
        self.jump = output_pattern / 512 % 2 == 1;
        self.reg_dest = output_pattern / 256 % 2 == 1;
        self.alu_src = output_pattern / 128 % 2 == 1;
        self.mem_to_reg = output_pattern / 64 % 2 == 1;
        self.reg_write = output_pattern / 32 % 2 == 1;
        self.mem_read = output_pattern / 16 % 2 == 1;
        self.mem_write = output_pattern / 8 % 2 == 1;
        self.branch = output_pattern / 4 % 2 == 1;
        self.alu_op_1 = output_pattern / 2 % 2 == 1;
        self.alu_op_0 = output_pattern % 2 == 1;
    }

    pub fn reg_dest(&self) -> (r: bool)
        ensures
            r == self.reg_dest,
    {
        self.reg_dest
    }

    pub fn branch(&self) -> (r: bool)
        ensures
            r == self.branch,
    {
        self.branch
    }

    pub fn mem_read(&self) -> (r: bool)
        ensures
            r == self.mem_read,
    {
        self.mem_read
    }

    pub fn mem_to_reg(&self) -> (r: bool)
        ensures
            r == self.mem_to_reg,
    {
        self.mem_to_reg
    }

    pub fn alu_op_0(&self) -> (r: bool)
        ensures
            r == self.alu_op_0,
    {
        self.alu_op_0
    }

    pub fn alu_op_1(&self) -> (r: bool)
        ensures
            r == self.alu_op_1,
    {
        self.alu_op_1
    }

    pub fn mem_write(&self) -> (r: bool)
        ensures
            r == self.mem_write,
    {
        self.mem_write
    }

    pub fn alu_src(&self) -> (r: bool)
        ensures
            r == self.alu_src,
    {
        self.alu_src
    }

    pub fn reg_write(&self) -> (r: bool)
        ensures
            r == self.reg_write,
    {
        self.reg_write
    }

    pub fn jump(&self) -> (r: bool)
        ensures
            r == self.jump,
    {
        self.jump
    }

    pub fn jump_reg(&self) -> (r: bool)
        ensures
            r == self.jump_reg,
    {
        self.jump_reg
    }

    pub fn shift(&self) -> (r: bool)
        ensures
            r == self.shift,
    {
        self.shift
    }

    pub fn exit(&self) -> (r: bool)
        ensures
            r == self.exit,
    {
        self.exit
    }
}

} // verus!
