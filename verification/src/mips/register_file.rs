//! The register file: thirty-two signed 32-bit registers. Register 0 always
//! reads as zero and writes to it are silently dropped.

use vstd::prelude::*;

verus! {

pub struct RegisterFile {
    registers: Vec<i32>,
}

impl View for RegisterFile {
    type V = Seq<i32>;

    /// The register contents, indexed by register number.
    closed spec fn view(&self) -> Seq<i32> {
        self.registers@
    }
}

impl RegisterFile {
    /// Thirty-two registers, register 0 pinned to zero.
    pub open spec fn wf(&self) -> bool {
        &&& self@.len() == 32
        &&& self@[0] == 0
    }

    /// All thirty-two registers hold zero.
    pub open spec fn all_zero(&self) -> bool {
        forall|i: int| 0 <= i < 32 ==> self@[i] == 0
    }

    pub fn new() -> (r: RegisterFile)
        ensures
            r.wf(),
            r.all_zero(),
    {
        let mut registers: Vec<i32> = Vec::new();
        let mut i: usize = 0;
        while i < 32
            invariant
                i <= 32,
                registers@.len() == i,
                forall|j: int| 0 <= j < i ==> registers@[j] == 0,
            decreases 32 - i,
        {
            registers.push(0);
            i = i + 1;
        }
        RegisterFile { registers }
    }

    /// Writes the value to the register when the write signal is set, except
    /// that register 0 is never changed.
    pub fn write_to_register(&mut self, write_reg: u8, write_data: i32, reg_write_sig: bool)
        requires
            old(self).wf(),
            write_reg < 32,
        ensures
            final(self).wf(),
            final(self)@ == if reg_write_sig && write_reg != 0 {
                old(self)@.update(write_reg as int, write_data)
            } else {
                old(self)@
            },
    {
        if reg_write_sig && write_reg != 0 {
            self.registers.set(write_reg as usize, write_data);
        }
    }

    /// The value held by the register; register 0 reads as zero.
    pub fn read_from_register(&self, read_reg: u8) -> (r: i32)
        requires
            self.wf(),
            read_reg < 32,
        ensures
            r == self@[read_reg as int],
            read_reg == 0 ==> r == 0,
    {
        self.registers[read_reg as usize]
    }

    /// Reads two registers at once.
    pub fn read_from_registers(&self, read_reg_1: u8, read_reg_2: u8) -> (r: (i32, i32))
        requires
            self.wf(),
            read_reg_1 < 32,
            read_reg_2 < 32,
        ensures
            r.0 == self@[read_reg_1 as int],
            r.1 == self@[read_reg_2 as int],
    {
        (self.registers[read_reg_1 as usize], self.registers[read_reg_2 as usize])
    }

    /// Every register paired with its number, in register order.
    pub fn get_registers_and_values(&self) -> (r: Vec<(u8, i32)>)
        requires
            self.wf(),
        ensures
            r@.len() == 32,
            forall|i: int| 0 <= i < 32 ==> r@[i] == (i as u8, self@[i]),
    {
        let mut register_vec: Vec<(u8, i32)> = Vec::new();
        let mut i: usize = 0;
        while i < 32
            invariant
                self.wf(),
                i <= 32,
                register_vec@.len() == i,
                forall|j: int| 0 <= j < i ==> register_vec@[j] == (j as u8, self@[j]),
            decreases 32 - i,
        {
            register_vec.push((i as u8, self.registers[i]));
            i = i + 1;
        }
        register_vec
    }

    /// Resets the contents of all registers to 0.
    pub fn reset_registers(&mut self)
        ensures
            final(self).wf(),
            final(self).all_zero(),
    {
        *self = RegisterFile::new();
    }
}

/// Register 0 is immutable: whatever sequence of writes is performed, the
/// register file keeps register 0 at zero, so a read of register 0 always
/// yields 0 (the contract of `write_to_register` reduces every write to this
/// update).
pub proof fn lemma_register_zero_immutable(
    regs: Seq<i32>,
    write_reg: u8,
    write_data: i32,
    reg_write_sig: bool,
)
    requires
        regs.len() == 32,
        regs[0] == 0,
        write_reg < 32,
    ensures
        ({
            let regs_after = if reg_write_sig && write_reg != 0 {
                regs.update(write_reg as int, write_data)
            } else {
                regs
            };
            regs_after[0] == 0
        }),
{
}

} // verus!
