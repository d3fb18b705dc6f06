//! The instruction memory of the simulator: the ordered, immutable list of
//! instructions produced by the assembler, indexed by word (the instruction at
//! program counter `pc` is entry `pc / 4`).

use crate::assembler::instructions::Instruction;
use vstd::prelude::*;

verus! {

/// A cap on the number of instructions, so that every byte address of the
/// program fits comfortably in 32 bits.
pub const MAX_INSTRUCTIONS: usize = 0x400_0000;

pub struct InstructionMemory {
    instructions: Vec<Instruction>,
}

impl View for InstructionMemory {
    type V = Seq<Instruction>;

    closed spec fn view(&self) -> Seq<Instruction> {
        self.instructions@
    }
}

impl InstructionMemory {
    pub open spec fn wf(&self) -> bool {
        &&& self@.len() <= MAX_INSTRUCTIONS
        &&& forall|i: int| 0 <= i < self@.len() ==> self@[i].wf()
    }

    pub fn new() -> (r: InstructionMemory)
        ensures
            r.wf(),
            r@.len() == 0,
    {
        InstructionMemory { instructions: Vec::new() }
    }

    /// Takes ownership of the assembled instruction list.
    pub fn load_instruction_memory(instrs: Vec<Instruction>) -> (r: Box<InstructionMemory>)
        requires
            instrs@.len() <= MAX_INSTRUCTIONS,
            forall|i: int| 0 <= i < instrs@.len() ==> instrs@[i].wf(),
        ensures
            r.wf(),
            r@ == instrs@,
    {
        Box::new(InstructionMemory { instructions: instrs })
    }

    /// The instruction at the program counter, which addresses bytes: entry
    /// `pc / 4`, or nothing when that runs past the program.
    pub fn get_instruction_from_pc(&self, pc: usize) -> (r: Option<&Instruction>)
        ensures
            r == if pc / 4 < self@.len() {
                Some(&self@[pc as int / 4])
            } else {
                None::<&Instruction>
            },
    {
        let maybe_instruction = self.instructions.get(pc / 4);
        if maybe_instruction.is_none() {
            return None;
        }
        Some(maybe_instruction.unwrap())
    }

    /// The instruction at the list index.
    pub fn get_instruction_from_index(&self, idx: usize) -> (r: Option<&Instruction>)
        ensures
            r == if idx < self@.len() {
                Some(&self@[idx as int])
            } else {
                None::<&Instruction>
            },
    {
        self.instructions.get(idx)
    }

    pub fn get_nb_instructions(&self) -> (r: usize)
        ensures
            r == self@.len(),
    {
        self.instructions.len()
    }

    /// Every instruction paired with its byte address rendered in decimal, in
    /// program order.
    pub fn get_contents(&self) -> (r: Vec<(String, Instruction)>)
        requires
            self.wf(),
        ensures
            r@.len() == self@.len(),
            forall|i: int|
                0 <= i < self@.len() ==> (#[trigger] r@[i]).1 == self@[i] && r@[i].0@
                    == crate::numfmt::spec_dec_nat((4 * i) as nat),
    {
        let mut v: Vec<(String, Instruction)> = Vec::new();
        let mut i: usize = 0;
        while i < self.instructions.len()
            invariant
                self.wf(),
                i <= self@.len(),
                self@.len() == self.instructions@.len(),
                self@.len() <= MAX_INSTRUCTIONS,
                v@.len() == i,
                forall|j: int|
                    0 <= j < i ==> (#[trigger] v@[j]).1 == self@[j] && v@[j].0@
                        == crate::numfmt::spec_dec_nat((4 * j) as nat),
            decreases self@.len() - i,
        {
            let addr_text = crate::numfmt::dec_string_u64((i as u64) * 4);
            v.push((addr_text, self.instructions[i]));
            i = i + 1;
        }
        v
    }
}

} // verus!
