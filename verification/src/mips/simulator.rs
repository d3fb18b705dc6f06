//! The single-cycle simulator: fetch, decode, execute, memory, write-back and
//! next-PC, one instruction per call to `step`.
//!
//! The contract of `step` is stated against `spec_step`, a functional model of
//! one cycle over the observable state (instruction list, program counter,
//! registers, data memory).
//!
//! Conventions, where the hardware leaves room: the branch target is the
//! incremented PC plus four times the sign-extended immediate field (the field
//! holds a word offset); fetching past the end of the program completes the
//! run when the PC sits exactly one instruction past the end and fails
//! otherwise; a misaligned word access is a recoverable failure, while a store
//! past the end of data memory is excluded by precondition.

use crate::assembler::instructions::{
    field_funct, field_jump_bytes, field_op, field_rd, field_rs, field_rt, field_shamt, field_simm,
    lemma_wf_decodable, Instruction,
};
use crate::mips::adder::Adder;
use crate::mips::alu::{spec_alu_result, Alu};
use crate::mips::alu_control::{self, spec_alu_signal};
use crate::mips::control::{spec_control, Control};
use crate::mips::data_memory::{spec_word_at, spec_write_word, DataMemory, MEM_SIZE};
use crate::mips::instruction_memory::{InstructionMemory, MAX_INSTRUCTIONS};
use crate::mips::multiplexor::Multiplexor;
use crate::mips::register_file::RegisterFile;
use crate::mips::shift_left_2::ShiftLeftTwo;
use crate::word::{i32_of_u32, lemma_i32_of_u32, lemma_u32_of_i32, u32_of_i32};
use vstd::prelude::*;
use vstd::string::StringExecFns;
use vstd::wrapping::{i32_specs, u32_specs};

verus! {

/// The observable state of the simulator: the program, the program counter,
/// the thirty-two registers and the 1000 bytes of data memory.
pub struct SimView {
    pub instrs: Seq<Instruction>,
    pub pc: u32,
    pub regs: Seq<i32>,
    pub mem: Seq<u8>,
}

impl SimView {
    pub open spec fn wf(&self) -> bool {
        &&& self.instrs.len() <= MAX_INSTRUCTIONS
        &&& (forall|i: int| 0 <= i < self.instrs.len() ==> self.instrs[i].wf())
        &&& self.regs.len() == 32
        &&& self.regs[0] == 0
        &&& self.mem.len() == MEM_SIZE
    }
}

// ---------------------------------------------------------------------------
// The functional model of one cycle.
// ---------------------------------------------------------------------------
/// The program counter addresses an instruction of the program.
pub open spec fn spec_fetch_ok(v: SimView) -> bool {
    (v.pc as int) / 4 < v.instrs.len()
}

/// The 32-bit word of the instruction at the program counter.
pub open spec fn spec_cur_word(v: SimView) -> u32
    recommends
        spec_fetch_ok(v),
{
    v.instrs[(v.pc as int) / 4].spec_encode()
}

/// The control signals decoded from the current instruction.
pub open spec fn spec_ctrl(v: SimView) -> Control
    recommends
        spec_fetch_ok(v),
{
    spec_control(field_op(spec_cur_word(v)), field_funct(spec_cur_word(v)))
}

/// The value read from the rs field's register.
pub open spec fn spec_rs_val(v: SimView) -> i32
    recommends
        spec_fetch_ok(v),
        v.regs.len() == 32,
{
    v.regs[field_rs(spec_cur_word(v)) as int]
}

/// The value read from the rt field's register.
pub open spec fn spec_rt_val(v: SimView) -> i32
    recommends
        spec_fetch_ok(v),
        v.regs.len() == 32,
{
    v.regs[field_rt(spec_cur_word(v)) as int]
}

/// The ALU result of the cycle: the first input is rt when shifting, else rs;
/// the second is the shift amount when shifting, else the sign-extended
/// immediate when alu_src is set, else rt.
pub open spec fn spec_alu_out(v: SimView) -> i32
    recommends
        spec_fetch_ok(v),
        v.regs.len() == 32,
{
    let w = spec_cur_word(v);
    let c = spec_ctrl(v);
    let in_1 = if c.shift {
        spec_rt_val(v)
    } else {
        spec_rs_val(v)
    };
    let in_2 = if c.shift {
        field_shamt(w) as i32
    } else if c.alu_src {
        field_simm(w) as i32
    } else {
        spec_rt_val(v)
    };
    spec_alu_result(spec_alu_signal(c.alu_op_0, c.alu_op_1, field_funct(w)), in_1, in_2)
}

/// The byte address a memory instruction touches: the ALU output read as an
/// unsigned 32-bit address.
pub open spec fn spec_mem_addr(v: SimView) -> u32
    recommends
        spec_fetch_ok(v),
        v.regs.len() == 32,
{
    u32_of_i32(spec_alu_out(v))
}

/// The cycle asserts a store to a misaligned address: a recoverable failure.
pub open spec fn spec_store_misaligned(v: SimView) -> bool {
    &&& spec_fetch_ok(v)
    &&& spec_ctrl(v).mem_write
    &&& spec_mem_addr(v) % 4 != 0
}

/// No store of the cycle runs past the end of data memory (a fatal condition,
/// excluded by precondition).
pub open spec fn spec_store_in_bounds(v: SimView) -> bool {
    spec_fetch_ok(v) && spec_ctrl(v).mem_write && spec_mem_addr(v) % 4 == 0
        ==> spec_mem_addr(v) + 4 <= MEM_SIZE
}

/// The cycle asserts a load that is misaligned or out of range: a recoverable
/// failure.
pub open spec fn spec_load_fails(v: SimView) -> bool {
    &&& spec_fetch_ok(v)
    &&& spec_ctrl(v).mem_read
    &&& !(spec_mem_addr(v) % 4 == 0 && spec_mem_addr(v) < MEM_SIZE)
}

/// The data memory after the cycle: the rt value stored at the ALU address
/// when mem_write is asserted, else unchanged.
pub open spec fn spec_mem_after(v: SimView) -> Seq<u8>
    recommends
        spec_fetch_ok(v),
        v.regs.len() == 32,
{
    if spec_ctrl(v).mem_write && spec_mem_addr(v) % 4 == 0 {
        spec_write_word(v.mem, spec_mem_addr(v) as int, spec_rt_val(v))
    } else {
        v.mem
    }
}

/// The value written back to the register file: the loaded word when
/// mem_to_reg is asserted, else the ALU output.
pub open spec fn spec_wb_value(v: SimView) -> i32
    recommends
        spec_fetch_ok(v),
        v.regs.len() == 32,
{
    if spec_ctrl(v).mem_to_reg {
        spec_word_at(spec_mem_after(v), spec_mem_addr(v) as int)
    } else {
        spec_alu_out(v)
    }
}

/// The destination register: rd when reg_dest is asserted, else rt.
pub open spec fn spec_dest_reg(v: SimView) -> u8
    recommends
        spec_fetch_ok(v),
{
    if spec_ctrl(v).reg_dest {
        field_rd(spec_cur_word(v))
    } else {
        field_rt(spec_cur_word(v))
    }
}

/// The registers after the cycle: the write-back value stored at the
/// destination when reg_write is asserted, except that register 0 never
/// changes.
pub open spec fn spec_regs_after(v: SimView) -> Seq<i32>
    recommends
        spec_fetch_ok(v),
        v.regs.len() == 32,
{
    if spec_ctrl(v).reg_write && spec_dest_reg(v) != 0 {
        v.regs.update(spec_dest_reg(v) as int, spec_wb_value(v))
    } else {
        v.regs
    }
}

/// The incremented program counter.
pub open spec fn spec_pc_plus_4(v: SimView) -> u32 {
    u32_specs::wrapping_add(v.pc, 4)
}

/// The branch target: the incremented PC plus four times the sign-extended
/// immediate field (a word offset scaled to bytes).
pub open spec fn spec_branch_target(v: SimView) -> i32
    recommends
        spec_fetch_ok(v),
{
    i32_specs::wrapping_add(
        i32_of_u32(spec_pc_plus_4(v)),
        (field_simm(spec_cur_word(v)) * 4) as i32,
    )
}

/// The program counter after the cycle: the rs value for jr, the scaled jump
/// field for j, the branch target for a taken beq, else PC + 4.
pub open spec fn spec_pc_after(v: SimView) -> u32
    recommends
        spec_fetch_ok(v),
        v.regs.len() == 32,
{
    let c = spec_ctrl(v);
    if c.jump_reg {
        u32_of_i32(spec_rs_val(v))
    } else if c.jump {
        field_jump_bytes(spec_cur_word(v))
    } else if c.branch && spec_alu_out(v) == 0 {
        u32_of_i32(spec_branch_target(v))
    } else {
        spec_pc_plus_4(v)
    }
}

/// The observable state after one call to `step`. On a failed fetch or a
/// failed memory access only the program counter moves (by 4).
pub open spec fn spec_step(v: SimView) -> SimView
    recommends
        v.wf(),
{
    if !spec_fetch_ok(v) || spec_store_misaligned(v) || spec_load_fails(v) {
        SimView { pc: spec_pc_plus_4(v), ..v }
    } else {
        SimView {
            instrs: v.instrs,
            pc: spec_pc_after(v),
            regs: spec_regs_after(v),
            mem: spec_mem_after(v),
        }
    }
}

/// The step reports a completed run: the exit signal was asserted, or the
/// fetch failed with the PC exactly one instruction past the program.
pub open spec fn spec_step_completes(v: SimView) -> bool {
    if spec_fetch_ok(v) {
        !spec_store_misaligned(v) && !spec_load_fails(v) && spec_ctrl(v).exit
    } else {
        (v.pc as int) / 4 == v.instrs.len()
    }
}

/// The step reports a failure: a fetch from farther past the program, or a
/// misaligned or out-of-range word access.
pub open spec fn spec_step_fails(v: SimView) -> bool {
    if spec_fetch_ok(v) {
        spec_store_misaligned(v) || spec_load_fails(v)
    } else {
        (v.pc as int) / 4 != v.instrs.len()
    }
}

/// What one call to `step` reports.
#[derive(Debug)]
pub enum RunResult {
    Success,
    Completed,
    Failure(String),
}

impl PartialEq for RunResult {
    fn eq(&self, other: &RunResult) -> (r: bool) {
        match (self, other) {
            (RunResult::Success, RunResult::Success) => true,
            (RunResult::Completed, RunResult::Completed) => true,
            (RunResult::Failure(a), RunResult::Failure(b)) => *a == *b,
            _ => false,
        }
    }
}

impl vstd::std_specs::cmp::PartialEqSpecImpl for RunResult {
    open spec fn obeys_eq_spec() -> bool {
        true
    }

    open spec fn eq_spec(&self, other: &RunResult) -> bool {
        match (self, other) {
            (RunResult::Success, RunResult::Success) => true,
            (RunResult::Completed, RunResult::Completed) => true,
            (RunResult::Failure(a), RunResult::Failure(b)) => a@ == b@,
            _ => false,
        }
    }
}

pub struct Simulator {
    instruction_mem: Box<InstructionMemory>,
    data_mem: Box<DataMemory>,
    register_file: Box<RegisterFile>,
    alu: Box<Alu>,
    control: Box<Control>,
    pc: u32,
    write_reg_mplex: Box<Multiplexor>,
    alu_input_mplex: Box<Multiplexor>,
    data_mem_output_mplex: Box<Multiplexor>,
    beq_mplex: Box<Multiplexor>,
    jump_mplex: Box<Multiplexor>,
    shift_mplex: Box<Multiplexor>,
    jr_mplex: Box<Multiplexor>,
    adder: Box<Adder>,
}

impl View for Simulator {
    type V = SimView;

    closed spec fn view(&self) -> SimView {
        SimView {
            instrs: self.instruction_mem@,
            pc: self.pc,
            regs: self.register_file@,
            mem: self.data_mem@,
        }
    }
}

impl Simulator {
    pub open spec fn wf(&self) -> bool {
        self@.wf()
    }

    /// A simulator loaded with the program, registers and memory zeroed and
    /// the PC at 0.
    pub fn new(instruction_mem: Vec<Instruction>) -> (r: Simulator)
        requires
            instruction_mem@.len() <= MAX_INSTRUCTIONS,
            forall|i: int| 0 <= i < instruction_mem@.len() ==> instruction_mem@[i].wf(),
        ensures
            r.wf(),
            r@.instrs == instruction_mem@,
            r@.pc == 0,
            forall|i: int| 0 <= i < 32 ==> r@.regs[i] == 0,
            forall|i: int| 0 <= i < MEM_SIZE ==> r@.mem[i] == 0,
    {
        Simulator {
            instruction_mem: InstructionMemory::load_instruction_memory(instruction_mem),
            data_mem: Box::new(DataMemory::new()),
            register_file: Box::new(RegisterFile::new()),
            alu: Box::new(Alu::new()),
            control: Box::new(Control::new()),
            pc: 0,
            write_reg_mplex: Box::new(Multiplexor::new()),
            alu_input_mplex: Box::new(Multiplexor::new()),
            data_mem_output_mplex: Box::new(Multiplexor::new()),
            beq_mplex: Box::new(Multiplexor::new()),
            jump_mplex: Box::new(Multiplexor::new()),
            jr_mplex: Box::new(Multiplexor::new()),
            shift_mplex: Box::new(Multiplexor::new()),
            adder: Box::new(Adder {}),
        }
    }

    /// One cycle: fetch, decode, execute, memory, write-back, next PC.
    #[verifier::rlimit(60)]
    pub fn step(&mut self) -> (r: RunResult)
        requires
            old(self).wf(),
            spec_store_in_bounds(old(self)@),
        ensures
            final(self).wf(),
            final(self)@ == spec_step(old(self)@),
            (r is Completed) == spec_step_completes(old(self)@),
            (r is Failure) == spec_step_fails(old(self)@),
            (r is Success) == (!spec_step_completes(old(self)@) && !spec_step_fails(old(self)@)),
    {
        let ghost v = self@;
        let pc_at_fetch = self.pc;
        let fetched: Option<Instruction> = match self.instruction_mem.get_instruction_from_pc(
            self.pc as usize,
        ) {
            Some(instr) => Some(*instr),
            None => None,
        };
        self.pc = self.pc.wrapping_add(4);

        if let Some(instr) = fetched {
            proof {
                assert(instr == v.instrs[(v.pc as int) / 4]);
                lemma_wf_decodable(instr);
            }
            /* DECODE */
            let w = instr.encode();
            let op_bits = (w / crate::assembler::instructions::PLACE_OP) as u8;
            let funct_bits = (w % 64) as u8;
            proof {
                assert(op_bits == field_op(w) && funct_bits == field_funct(w));
            }
            self.control.set_output_flags(op_bits, funct_bits);
            let ghost c = spec_ctrl(v);

            // Set multiplex signals, except the branch multiplexor.
            self.write_reg_mplex.set_signal(self.control.reg_dest());
            self.alu_input_mplex.set_signal(self.control.alu_src());
            self.jump_mplex.set_signal(self.control.jump());
            self.data_mem_output_mplex.set_signal(self.control.mem_to_reg());
            self.shift_mplex.set_signal(self.control.shift());
            self.jr_mplex.set_signal(self.control.jump_reg());

            let reg_1 = ((w / crate::assembler::instructions::PLACE_RS) % 32) as u8;
            let read_val_1 = self.register_file.read_from_register(reg_1);
            let reg_2 = ((w / crate::assembler::instructions::PLACE_RT) % 32) as u8;
            let read_val_2 = self.register_file.read_from_register(reg_2);

            let alu_signal = alu_control::get_alu_signal(
                self.control.alu_op_0(),
                self.control.alu_op_1(),
                funct_bits,
            );

            let imm_field: u32 = w % 0x1_0000;
            let imm: i32 = if imm_field >= 0x8000 {
                (imm_field as i32) - 0x1_0000
            } else {
                imm_field as i32
            };
            let shamt = ((w / crate::assembler::instructions::PLACE_SHAMT) % 32) as u8;

            let fst_alu_op = self.shift_mplex.multiplex(Some(read_val_2), read_val_1);
            let snd_alu_op = self.alu_input_mplex.multiplex(Some(imm), read_val_2);
            let snd_alu_op = self.shift_mplex.multiplex(Some(shamt as i32), snd_alu_op);

            /* EXECUTE */
            proof {
                assert(alu_signal == 13 || alu_signal == 14 ==> c.shift);
            }
            let alu_res = self.alu.perform_op(fst_alu_op, snd_alu_op, alu_signal);
            proof {
                assert(alu_res == spec_alu_out(v));
            }

            /* MEMORY */
            let addr = crate::word::to_bits(alu_res);
            proof {
                assert(addr == spec_mem_addr(v));
                assert(!(c.mem_read && c.mem_write));
            }
            let write_res = self.data_mem.write_word_to_address(
                addr as usize,
                read_val_2,
                self.control.mem_write(),
            );
            if write_res.is_err() {
                proof {
                    assert(spec_store_misaligned(v));
                    assert(self@ == spec_step(v));
                }
                return RunResult::Failure(
                    String::from_str("tried to store a word at a misaligned address"),
                );
            }
            proof {
                assert(self.data_mem@ == spec_mem_after(v));
            }
            let read_data = self.data_mem.get_word(addr as usize, self.control.mem_read());
            if self.control.mem_read() && read_data.is_none() {
                proof {
                    assert(spec_load_fails(v));
                    assert(self@ == spec_step(v));
                }
                return RunResult::Failure(
                    String::from_str(
                        "tried to load a word from a misaligned or out-of-range address",
                    ),
                );
            }
            proof {
                assert(!spec_store_misaligned(v) && !spec_load_fails(v));
            }
            let write_to_reg_val = self.data_mem_output_mplex.multiplex(read_data, alu_res);
            proof {
                assert(write_to_reg_val == spec_wb_value(v));
            }

            /* WRITE BACK */
            let reg_3 = ((w / crate::assembler::instructions::PLACE_RD) % 32) as u8;
            let dst_reg = self.write_reg_mplex.multiplex(Some(reg_3 as i32), reg_2 as i32);
            proof {
                assert(dst_reg as u8 == spec_dest_reg(v));
            }
            self.register_file.write_to_register(
                dst_reg as u8,
                write_to_reg_val,
                self.control.reg_write(),
            );
            proof {
                assert(self.register_file@ == spec_regs_after(v));
            }

            /* NEXT PC */
            let shifter = ShiftLeftTwo::new();
            let jump_target = shifter.shift(w % crate::assembler::instructions::PLACE_OP);
            let jump_target_i32 = crate::word::from_bits(jump_target);

            self.beq_mplex.set_signal(self.control.branch() && self.alu.zero());
            let pc_incremented = crate::word::from_bits(self.pc);
            let beq_target = pc_incremented.wrapping_add(imm * 4);
            let pc_or_beq_target = self.beq_mplex.multiplex(Some(beq_target), pc_incremented);
            let pc_or_beq_or_jmp = self.jump_mplex.multiplex(Some(jump_target_i32), pc_or_beq_target);
            let next_pc = self.jr_mplex.multiplex(Some(read_val_1), pc_or_beq_or_jmp);
            self.pc = crate::word::to_bits(next_pc);

            proof {
                lemma_i32_of_u32(jump_target);
                lemma_i32_of_u32(spec_pc_plus_4(v));
                lemma_u32_of_i32(read_val_1);
                lemma_u32_of_i32(beq_target);
                assert(self.pc == spec_pc_after(v));
                assert(self@ == spec_step(v));
            }
            if self.control.exit() {
                return RunResult::Completed;
            }
            RunResult::Success
        } else if (pc_at_fetch as usize) / 4 == self.instruction_mem.get_nb_instructions() {
            RunResult::Completed
        } else {
            RunResult::Failure(
                String::from_str("tried to fetch an instruction from past the program"),
            )
        }
    }

    pub fn get_current_pc(&self) -> (r: usize)
        ensures
            r == self@.pc,
    {
        self.pc as usize
    }

    /// Every register paired with its number, in register order.
    pub fn get_registers(&self) -> (r: Vec<(u8, i32)>)
        requires
            self.wf(),
        ensures
            r@.len() == 32,
            forall|i: int| 0 <= i < 32 ==> r@[i] == (i as u8, self@.regs[i]),
    {
        self.register_file.get_registers_and_values()
    }

    /// Every byte of data memory paired with its address, in address order.
    pub fn get_data_mem(&self) -> (r: Vec<(u32, u8)>)
        requires
            self.wf(),
        ensures
            r@.len() == MEM_SIZE,
            forall|i: int| 0 <= i < MEM_SIZE ==> r@[i] == (i as u32, self@.mem[i]),
    {
        self.data_mem.get_contents()
    }

    pub fn get_nb_instructions(&self) -> (r: usize)
        ensures
            r == self@.instrs.len(),
    {
        self.instruction_mem.get_nb_instructions()
    }

    /// Every instruction paired with its byte address rendered in decimal, in
    /// program order.
    pub fn get_instr_mem(&self) -> (r: Vec<(String, Instruction)>)
        requires
            self.wf(),
        ensures
            r@.len() == self@.instrs.len(),
            forall|i: int|
                0 <= i < self@.instrs.len() ==> (#[trigger] r@[i]).1 == self@.instrs[i]
                    && r@[i].0@ == crate::numfmt::spec_dec_nat((4 * i) as nat),
    {
        self.instruction_mem.get_contents()
    }

    /// Restores the PC to 0 and zeroes all registers and all of data memory;
    /// the instruction list is not affected.
    pub fn reset(&mut self)
        requires
            old(self).wf(),
        ensures
            final(self).wf(),
            final(self)@.instrs == old(self)@.instrs,
            final(self)@.pc == 0,
            forall|i: int| 0 <= i < 32 ==> final(self)@.regs[i] == 0,
            forall|i: int| 0 <= i < MEM_SIZE ==> final(self)@.mem[i] == 0,
    {
        self.pc = 0;
        self.data_mem.reset_contents();
        self.register_file.reset_registers();
        proof {
            assert(old(self)@.instrs =~= final(self)@.instrs);
        }
    }
}

// ---------------------------------------------------------------------------
// Laws of the next-PC logic.
// ---------------------------------------------------------------------------
/// PC advance: a step whose instruction asserts none of branch, jump,
/// jump-register (and does not fail a memory access) leaves the program
/// counter exactly four bytes further.
pub proof fn lemma_pc_advance(v: SimView)
    requires
        v.wf(),
        spec_fetch_ok(v),
        !spec_ctrl(v).branch,
        !spec_ctrl(v).jump,
        !spec_ctrl(v).jump_reg,
        !spec_store_misaligned(v),
        !spec_load_fails(v),
    ensures
        spec_step(v).pc == v.pc + 4,
{
    assert((v.pc as int) / 4 < MAX_INSTRUCTIONS);
}

/// Branch semantics: when `beq rs, rt, L` executes at a word-aligned PC with
/// the stored byte offset `L - (PC + 4)`, the next PC is `L` if the two
/// registers are equal and `PC + 4` otherwise.
pub proof fn lemma_branch_semantics(v: SimView, target: int)
    requires
        v.wf(),
        spec_fetch_ok(v),
        v.pc % 4 == 0,
        v.instrs[(v.pc as int) / 4] matches Instruction::IType(i) && i.op
            == crate::assembler::instructions::OP_BEQ && i.imm == target - (v.pc + 4),
        0 <= target < 0x8000_0000,
        target % 4 == 0,
    ensures
        !spec_step_fails(v),
        ({
            let i = v.instrs[(v.pc as int) / 4]->IType_0;
            &&& v.regs[i.rs as int] == v.regs[i.rt as int] ==> spec_step(v).pc == target
            &&& v.regs[i.rs as int] != v.regs[i.rt as int] ==> spec_step(v).pc == v.pc + 4
        }),
{
    let i = v.instrs[(v.pc as int) / 4]->IType_0;
    let w = spec_cur_word(v);
    crate::assembler::instructions::lemma_encode_round_trip(v.instrs[(v.pc as int) / 4]);
    let c = spec_ctrl(v);
    assert(c.branch && !c.jump && !c.jump_reg && !c.mem_read && !c.mem_write && !c.alu_src
        && !c.shift);
    // The ALU subtracts rs from rt; its result is zero exactly when they are
    // equal, wrapping included.
    let rs_val = spec_rs_val(v);
    let rt_val = spec_rt_val(v);
    assert(spec_alu_out(v) == i32_specs::wrapping_sub(rs_val, rt_val));
    assert(i32_specs::wrapping_sub(rs_val, rt_val) == 0 <==> rs_val == rt_val);
    // The stored byte offset is a multiple of four, so the scaled word offset
    // recovers it exactly.
    assert(i.imm as int % 4 == 0) by {
        assert((v.pc + 4) % 4 == 0);
        assert(i.imm as int == target - (v.pc + 4));
    };
    assert(field_simm(w) * 4 == i.imm);
    assert((v.pc as int) / 4 < MAX_INSTRUCTIONS);
    assert(spec_pc_plus_4(v) == v.pc + 4);
    lemma_i32_of_u32(spec_pc_plus_4(v));
    if rs_val == rt_val {
        assert(spec_branch_target(v) == target);
        assert(spec_pc_after(v) == u32_of_i32(spec_branch_target(v)));
        lemma_u32_of_i32(spec_branch_target(v));
    }
}

} // verus!
