//! The supported instruction forms and their bit-exact 32-bit encodings.
//!
//! Layout of the 32-bit word (bit 31 down to bit 0):
//!
//! | form    | 31..26 | 25..21 | 20..16 | 15..11 | 10..6 | 5..0  |
//! |---------|--------|--------|--------|--------|-------|-------|
//! | R       | op     | rs     | rt     | rd     | 0     | funct |
//! | shift R | 0      | 0      | rt     | rd     | shamt | funct |
//! | I       | op     | rs     | rt     | imm (16 bits)          |
//! | memory  | op     | base   | rt     | offset (16 bits)       |
//! | J       | op     | target >> 2 (26 bits)                    |
//! | JR      | 0      | rs     | 0      | 0      | 0     | 8     |

use vstd::prelude::*;

verus! {

// Place values of the bit fields.
pub const PLACE_OP: u32 = 0x400_0000;

pub const PLACE_RS: u32 = 0x20_0000;

pub const PLACE_RT: u32 = 0x1_0000;

pub const PLACE_RD: u32 = 0x800;

pub const PLACE_SHAMT: u32 = 0x40;

// ---------------------------------------------------------------------------
// Decoding: reading the named bit fields back out of a 32-bit word.
// ---------------------------------------------------------------------------
/// Bits 31..26: the opcode.
pub open spec fn field_op(w: u32) -> u8 {
    (w / PLACE_OP) as u8
}

/// Bits 25..21: the first source register (the base, for memory access).
pub open spec fn field_rs(w: u32) -> u8 {
    ((w / PLACE_RS) % 32) as u8
}

/// Bits 20..16: the second source register.
pub open spec fn field_rt(w: u32) -> u8 {
    ((w / PLACE_RT) % 32) as u8
}

/// Bits 15..11: the destination register of an R-type instruction.
pub open spec fn field_rd(w: u32) -> u8 {
    ((w / PLACE_RD) % 32) as u8
}

/// Bits 10..6: the shift amount.
pub open spec fn field_shamt(w: u32) -> u8 {
    ((w / PLACE_SHAMT) % 32) as u8
}

/// Bits 5..0: the funct code of an R-type instruction.
pub open spec fn field_funct(w: u32) -> u8 {
    (w % 64) as u8
}

/// Bits 15..0 read as an unsigned 16-bit value.
pub open spec fn field_imm_pattern(w: u32) -> int {
    (w as int) % 0x1_0000
}

/// Bits 15..0 sign-extended to a signed value.
pub open spec fn field_simm(w: u32) -> int {
    if field_imm_pattern(w) >= 0x8000 {
        field_imm_pattern(w) - 0x1_0000
    } else {
        field_imm_pattern(w)
    }
}

/// Bits 25..0 scaled back up to a byte address.
pub open spec fn field_jump_bytes(w: u32) -> u32 {
    ((w % PLACE_OP) * 4) as u32
}

// ---------------------------------------------------------------------------
// Encoding helpers.
// ---------------------------------------------------------------------------
/// The unsigned 16-bit two's-complement pattern of a signed immediate.
pub open spec fn imm_pattern(imm: i16) -> int {
    if imm >= 0 {
        imm as int
    } else {
        imm + 0x1_0000
    }
}

/// Arithmetic right shift by two of a 16-bit two's-complement pattern: the
/// value is divided by four and the sign bit is replicated into the top bits.
pub open spec fn sar2_pattern(p: int) -> int
    recommends
        0 <= p < 0x1_0000,
{
    if p >= 0x8000 {
        p / 4 + 0xC000
    } else {
        p / 4
    }
}

/// The encoded immediate field of `beq`: the signed 16-bit byte offset,
/// arithmetically shifted right by two to a word offset.
pub open spec fn beq_field(imm: i16) -> int {
    sar2_pattern(imm_pattern(imm))
}

// ---------------------------------------------------------------------------
// The instruction forms.
// ---------------------------------------------------------------------------
/// R-type: three-register arithmetic and the shifts.
#[derive(Debug, Clone, Copy, PartialEq, Eq, Structural)]
pub struct RTypeInstruction {
    pub op: u8,
    pub rs: u8,
    pub rt: u8,
    pub rd: u8,
    pub shamt: u8,
    pub func: u8,
}

impl RTypeInstruction {
    pub open spec fn wf(&self) -> bool {
        &&& self.op == 0
        &&& self.rs < 32
        &&& self.rt < 32
        &&& self.rd < 32
        &&& self.shamt < 32
        &&& crate::mips::alu_control::rtype_funct_supported(self.func)
    }

    pub open spec fn spec_encode(&self) -> u32
        recommends
            self.wf(),
    {
        (self.op * PLACE_OP + self.rs * PLACE_RS + self.rt * PLACE_RT + self.rd * PLACE_RD
            + self.shamt * PLACE_SHAMT + self.func) as u32
    }

    /// The 32-bit machine word of the instruction.
    pub fn encode(&self) -> (w: u32)
        requires
            self.wf(),
        ensures
            w == self.spec_encode(),
    {
        (self.op as u32) * PLACE_OP + (self.rs as u32) * PLACE_RS + (self.rt as u32) * PLACE_RT + (
        self.rd as u32) * PLACE_RD + (self.shamt as u32) * PLACE_SHAMT + (self.func as u32)
    }
}

/// I-type: addi, ori and beq. For beq the immediate holds the signed byte
/// offset from the address after the branch to the target; the encoder scales
/// it to a word offset.
#[derive(Debug, Clone, Copy, PartialEq, Eq, Structural)]
pub struct ITypeInstruction {
    pub op: u8,
    pub rs: u8,
    pub rt: u8,
    pub imm: i16,
}

/// The opcode of `beq`.
pub const OP_BEQ: u8 = 4;

impl ITypeInstruction {
    pub open spec fn wf(&self) -> bool {
        &&& (self.op == 8 || self.op == 13 || self.op == OP_BEQ)
        &&& self.rs < 32
        &&& self.rt < 32
    }

    pub open spec fn spec_encode(&self) -> u32
        recommends
            self.wf(),
    {
        if self.op == OP_BEQ {
            (self.op * PLACE_OP + self.rs * PLACE_RS + self.rt * PLACE_RT + beq_field(
                self.imm,
            )) as u32
        } else {
            (self.op * PLACE_OP + self.rs * PLACE_RS + self.rt * PLACE_RT + imm_pattern(
                self.imm,
            )) as u32
        }
    }

    /// The 32-bit machine word of the instruction.
    pub fn encode(&self) -> (w: u32)
        requires
            self.wf(),
        ensures
            w == self.spec_encode(),
    {
        let high = (self.op as u32) * PLACE_OP + (self.rs as u32) * PLACE_RS + (self.rt as u32)
            * PLACE_RT;
        let p: u32 = if self.imm >= 0 {
            self.imm as u32
        } else {
            ((self.imm as i32) + 0x1_0000) as u32
        };
        if self.op == OP_BEQ {
            let field: u32 = if p >= 0x8000 {
                p / 4 + 0xC000
            } else {
                p / 4
            };
            high + field
        } else {
            high + p
        }
    }
}

/// Memory access: lw and sw, with a signed byte offset from a base register.
#[derive(Debug, Clone, Copy, PartialEq, Eq, Structural)]
pub struct MemoryAccessTypeInstruction {
    pub op: u8,
    pub base: u8,
    pub rt: u8,
    pub offset: i16,
}

impl MemoryAccessTypeInstruction {
    pub open spec fn wf(&self) -> bool {
        &&& (self.op == 35 || self.op == 43)
        &&& self.base < 32
        &&& self.rt < 32
    }

    pub open spec fn spec_encode(&self) -> u32
        recommends
            self.wf(),
    {
        (self.op * PLACE_OP + self.base * PLACE_RS + self.rt * PLACE_RT + imm_pattern(
            self.offset,
        )) as u32
    }

    /// The 32-bit machine word of the instruction.
    pub fn encode(&self) -> (w: u32)
        requires
            self.wf(),
        ensures
            w == self.spec_encode(),
    {
        let p: u32 = if self.offset >= 0 {
            self.offset as u32
        } else {
            ((self.offset as i32) + 0x1_0000) as u32
        };
        (self.op as u32) * PLACE_OP + (self.base as u32) * PLACE_RS + (self.rt as u32) * PLACE_RT
            + p
    }
}

/// J-type: an absolute jump. The target is kept as an unshifted byte address
/// below 2^26; the encoder right-shifts it by two.
#[derive(Debug, Clone, Copy, PartialEq, Eq, Structural)]
pub struct JTypeInstruction {
    pub op: u8,
    pub addr: u32,
}

impl JTypeInstruction {
    pub open spec fn wf(&self) -> bool {
        &&& self.op == 2
        &&& self.addr < PLACE_OP
    }

    pub open spec fn spec_encode(&self) -> u32
        recommends
            self.wf(),
    {
        (self.op * PLACE_OP + self.addr / 4) as u32
    }

    /// The 32-bit machine word of the instruction.
    pub fn encode(&self) -> (w: u32)
        requires
            self.wf(),
        ensures
            w == self.spec_encode(),
    {
        (self.op as u32) * PLACE_OP + self.addr / 4
    }
}

/// JR: jump to the address held in a register. Opcode 0, funct 8, and the ten
/// bits between rs and the hint field are zero.
#[derive(Debug, Clone, Copy, PartialEq, Eq, Structural)]
pub struct JRTypeInstruction {
    pub op: u8,
    pub rs: u8,
    pub zero: u16,
    pub hint: u8,
    pub func: u8,
}

impl JRTypeInstruction {
    pub open spec fn wf(&self) -> bool {
        &&& self.op == 0
        &&& self.rs < 32
        &&& self.zero == 0
        &&& self.hint == 0
        &&& self.func == 8
    }

    pub open spec fn spec_encode(&self) -> u32
        recommends
            self.wf(),
    {
        (self.rs * PLACE_RS + 8) as u32
    }

    /// The 32-bit machine word of the instruction.
    pub fn encode(&self) -> (w: u32)
        requires
            self.wf(),
        ensures
            w == self.spec_encode(),
    {
        (self.rs as u32) * PLACE_RS + 8
    }
}

/// The no-op instruction: the all-zero word.
#[derive(Debug, Clone, Copy, PartialEq, Eq, Structural)]
pub struct NopTypeInstruction {}

/// The terminate pseudo-instruction: the all-ones word; its opcode 63 asserts
/// the exit control signal and halts the simulator.
#[derive(Debug, Clone, Copy, PartialEq, Eq, Structural)]
pub struct TerminateInstruction {}

/// One encoded source instruction, tagged by form.
#[derive(Debug, Clone, Copy, PartialEq, Eq, Structural)]
pub enum Instruction {
    RType(RTypeInstruction),
    IType(ITypeInstruction),
    JType(JTypeInstruction),
    NopType(NopTypeInstruction),
    JRType(JRTypeInstruction),
    MemoryAccessType(MemoryAccessTypeInstruction),
    TerminateInstructionType(TerminateInstruction),
}

impl Instruction {
    pub open spec fn wf(&self) -> bool {
        match self {
            Instruction::RType(i) => i.wf(),
            Instruction::IType(i) => i.wf(),
            Instruction::JType(i) => i.wf(),
            Instruction::NopType(_) => true,
            Instruction::JRType(i) => i.wf(),
            Instruction::MemoryAccessType(i) => i.wf(),
            Instruction::TerminateInstructionType(_) => true,
        }
    }

    pub open spec fn spec_encode(&self) -> u32
        recommends
            self.wf(),
    {
        match self {
            Instruction::RType(i) => i.spec_encode(),
            Instruction::IType(i) => i.spec_encode(),
            Instruction::JType(i) => i.spec_encode(),
            Instruction::NopType(_) => 0,
            Instruction::JRType(i) => i.spec_encode(),
            Instruction::MemoryAccessType(i) => i.spec_encode(),
            Instruction::TerminateInstructionType(_) => 0xFFFF_FFFF,
        }
    }

    /// The 32-bit machine word of the instruction.
    pub fn encode(&self) -> (w: u32)
        requires
            self.wf(),
        ensures
            w == self.spec_encode(),
    {
        match self {
            Instruction::RType(i) => i.encode(),
            Instruction::IType(i) => i.encode(),
            Instruction::JType(i) => i.encode(),
            Instruction::NopType(_) => 0,
            Instruction::JRType(i) => i.encode(),
            Instruction::MemoryAccessType(i) => i.encode(),
            Instruction::TerminateInstructionType(_) => 0xFFFF_FFFF,
        }
    }
}

// ---------------------------------------------------------------------------
// The encoding round trip: decoding the 32-bit word of a well-formed
// instruction reads back exactly the operands it was built from.
// ---------------------------------------------------------------------------
/// Positional extraction: in `a*(s*m) + b*s + c` with `b < m` and `c < s`, the
/// digit at place `s` is `b`.
proof fn lemma_place_value(a: int, b: int, c: int, s: int, m: int)
    requires
        s >= 1,
        m >= 1,
        0 <= b < m,
        0 <= c < s,
        0 <= a,
    ensures
        (a * (s * m) + b * s + c) / s == a * m + b,
        (a * (s * m) + b * s + c) / s % m == b,
{
    let w = a * (s * m) + b * s + c;
    assert(a * (s * m) + b * s + c == s * (a * m + b) + c) by (nonlinear_arith);
    vstd::arithmetic::div_mod::lemma_div_multiples_vanish_fancy(a * m + b, c, s);
    vstd::arithmetic::div_mod::lemma_mod_multiples_vanish(a, b, m);
    vstd::arithmetic::div_mod::lemma_small_mod(b as nat, m as nat);
}

/// Decoding the encoding of a well-formed instruction reproduces its fields.
/// For `beq` the byte offset is recovered as four times the decoded word
/// offset, so the offset must be a multiple of four; a jump target is likewise
/// recovered only up to word alignment.
pub proof fn lemma_encode_round_trip(instr: Instruction)
    requires
        instr.wf(),
    ensures
        match instr {
            Instruction::RType(i) => {
                let w = i.spec_encode();
                &&& field_op(w) == i.op
                &&& field_rs(w) == i.rs
                &&& field_rt(w) == i.rt
                &&& field_rd(w) == i.rd
                &&& field_shamt(w) == i.shamt
                &&& field_funct(w) == i.func
            },
            Instruction::IType(i) => {
                let w = i.spec_encode();
                &&& field_op(w) == i.op
                &&& field_rs(w) == i.rs
                &&& field_rt(w) == i.rt
                &&& i.op != OP_BEQ ==> field_simm(w) == i.imm
                &&& i.op == OP_BEQ ==> field_simm(w) == (i.imm as int) / 4
                &&& i.op == OP_BEQ && i.imm as int % 4 == 0 ==> field_simm(w) * 4 == i.imm
            },
            Instruction::JType(i) => {
                let w = i.spec_encode();
                &&& field_op(w) == i.op
                &&& field_jump_bytes(w) == 4 * (i.addr / 4)
                &&& i.addr % 4 == 0 ==> field_jump_bytes(w) == i.addr
            },
            Instruction::NopType(_) => true,
            Instruction::JRType(i) => {
                let w = i.spec_encode();
                &&& field_op(w) == 0
                &&& field_rs(w) == i.rs
                &&& field_rt(w) == 0
                &&& field_funct(w) == 8
            },
            Instruction::MemoryAccessType(i) => {
                let w = i.spec_encode();
                &&& field_op(w) == i.op
                &&& field_rs(w) == i.base
                &&& field_rt(w) == i.rt
                &&& field_simm(w) == i.offset
            },
            Instruction::TerminateInstructionType(_) => true,
        },
{
    match instr {
        Instruction::RType(i) => {
            let w = i.spec_encode() as int;
            let op = i.op as int;
            let rs = i.rs as int;
            let rt = i.rt as int;
            let rd = i.rd as int;
            let shamt = i.shamt as int;
            let func = i.func as int;
            lemma_place_value(
                0,
                op,
                rs * PLACE_RS + rt * PLACE_RT + rd * PLACE_RD + shamt * PLACE_SHAMT + func,
                PLACE_OP as int,
                64,
            );
            lemma_place_value(
                op,
                rs,
                rt * PLACE_RT + rd * PLACE_RD + shamt * PLACE_SHAMT + func,
                PLACE_RS as int,
                32,
            );
            lemma_place_value(
                op * 32 + rs,
                rt,
                rd * PLACE_RD + shamt * PLACE_SHAMT + func,
                PLACE_RT as int,
                32,
            );
            lemma_place_value(
                (op * 32 + rs) * 32 + rt,
                rd,
                shamt * PLACE_SHAMT + func,
                PLACE_RD as int,
                32,
            );
            lemma_place_value(((op * 32 + rs) * 32 + rt) * 32 + rd, shamt, func, 0x40, 32);
            lemma_place_value((((op * 32 + rs) * 32 + rt) * 32 + rd) * 32 + shamt, func, 0, 1, 64);
        },
        Instruction::IType(i) => {
            let op = i.op as int;
            let rs = i.rs as int;
            let rt = i.rt as int;
            let low = if i.op == OP_BEQ {
                beq_field(i.imm)
            } else {
                imm_pattern(i.imm)
            };
            assert(0 <= low < 0x1_0000);
            lemma_place_value(0, op, rs * PLACE_RS + rt * PLACE_RT + low, PLACE_OP as int, 64);
            lemma_place_value(op, rs, rt * PLACE_RT + low, PLACE_RS as int, 32);
            lemma_place_value(op * 32 + rs, rt, low, PLACE_RT as int, 32);
            lemma_place_value((op * 32 + rs) * 32 + rt, low, 0, 1, 0x1_0000);
            if i.op == OP_BEQ {
                lemma_beq_field_decodes(i.imm);
            }
        },
        Instruction::JType(i) => {
            let op = i.op as int;
            let low = i.addr as int / 4;
            lemma_place_value(0, op, low, PLACE_OP as int, 64);
            lemma_place_value(op, low, 0, 1, PLACE_OP as int);
            vstd::arithmetic::div_mod::lemma_fundamental_div_mod(i.addr as int, 4);
        },
        Instruction::NopType(_) => {},
        Instruction::JRType(i) => {
            let rs = i.rs as int;
            let w = i.spec_encode() as int;
            lemma_place_value(0, 0, rs * PLACE_RS + 8, PLACE_OP as int, 64);
            lemma_place_value(0, rs, 8, PLACE_RS as int, 32);
            lemma_place_value(rs, 0, 8, PLACE_RT as int, 32);
            lemma_place_value(rs * 32 * 32, 8, 0, 1, 64);
        },
        Instruction::MemoryAccessType(i) => {
            let op = i.op as int;
            let base = i.base as int;
            let rt = i.rt as int;
            let low = imm_pattern(i.offset);
            lemma_place_value(0, op, base * PLACE_RS + rt * PLACE_RT + low, PLACE_OP as int, 64);
            lemma_place_value(op, base, rt * PLACE_RT + low, PLACE_RS as int, 32);
            lemma_place_value(op * 32 + base, rt, low, PLACE_RT as int, 32);
            lemma_place_value((op * 32 + base) * 32 + rt, low, 0, 1, 0x1_0000);
        },
        Instruction::TerminateInstructionType(_) => {},
    }
}

/// Sign-extending the arithmetically shifted immediate field of `beq`
/// recovers the byte offset divided by four (rounding toward negative
/// infinity).
proof fn lemma_beq_field_decodes(imm: i16)
    ensures
        ({
            let f = beq_field(imm);
            let s = if f >= 0x8000 {
                f - 0x1_0000
            } else {
                f
            };
            s == imm as int / 4
        }),
{
    let p = imm_pattern(imm);
    if imm < 0 {
        // p = imm + 2^16; p/4 = imm/4 + 2^14 exactly, since 4 divides 2^16.
        vstd::arithmetic::div_mod::lemma_fundamental_div_mod(imm as int, 4);
        vstd::arithmetic::div_mod::lemma_mod_bound(imm as int, 4);
        let q = imm as int / 4;
        let r = imm as int % 4;
        assert(p == 4 * (q + 0x4000) + r);
        vstd::arithmetic::div_mod::lemma_div_multiples_vanish_fancy(q + 0x4000, r, 4);
        assert(p / 4 == q + 0x4000);
    }
}


/// A word that the control unit and the ALU control can always decode: the
/// opcode is one the control unit knows, and when the control signals select
/// an R-type ALU operation the funct field is one the ALU control knows.
pub open spec fn decodable(w: u32) -> bool {
    &&& crate::mips::control::opcode_supported(field_op(w))
    &&& {
        let c = crate::mips::control::spec_control(field_op(w), field_funct(w));
        c.alu_op_1 && !c.alu_op_0 ==> crate::mips::alu_control::rtype_funct_supported(
            field_funct(w),
        )
    }
}

/// The encoding of every well-formed instruction is decodable, and when the
/// control signals select a shift the shift amount is in range (it is a
/// five-bit field).
pub proof fn lemma_wf_decodable(instr: Instruction)
    requires
        instr.wf(),
    ensures
        decodable(instr.spec_encode()),
{
    lemma_encode_round_trip(instr);
    let w = instr.spec_encode();
    match instr {
        Instruction::RType(i) => {},
        Instruction::IType(i) => {},
        Instruction::JType(i) => {},
        Instruction::NopType(_) => {
            assert(field_op(0u32) == 0 && field_funct(0u32) == 0);
        },
        Instruction::JRType(i) => {},
        Instruction::MemoryAccessType(i) => {},
        Instruction::TerminateInstructionType(_) => {
            assert(field_op(0xFFFF_FFFFu32) == 63);
        },
    }
}


// ---------------------------------------------------------------------------
// Mnemonic and register tables.
// ---------------------------------------------------------------------------
/// The classification of a mnemonic into an instruction form.
#[derive(Debug, Clone, Copy, PartialEq, Eq, Structural)]
pub enum InstructionType {
    RType,
    IType,
    JType,
    NopType,
    MemoryAccessType,
    JRType,
    TerminateInstructionType,
}

/// The mnemonics the assembler supports.
pub open spec fn spec_valid_mnemonic(s: Seq<char>) -> bool {
    s == "add"@ || s == "sub"@ || s == "and"@ || s == "or"@ || s == "nor"@ || s == "slt"@ || s
        == "sll"@ || s == "jr"@ || s == "nop"@ || s == "lw"@ || s == "sw"@ || s == "beq"@ || s
        == "addi"@ || s == "j"@ || s == "ori"@ || s == "srl"@ || s == "sra"@ || s == "exit"@
}

/// The opcode of a mnemonic: 0 for the R-family (and nop), and the I/J opcodes
/// lw=35, sw=43, beq=4, addi=8, ori=13, j=2.
pub open spec fn spec_numeric_op(s: Seq<char>) -> Option<u8> {
    if s == "add"@ || s == "sub"@ || s == "and"@ || s == "or"@ || s == "nor"@ || s == "slt"@ || s
        == "sll"@ || s == "jr"@ || s == "nop"@ || s == "sra"@ || s == "srl"@ {
        Some(0)
    } else if s == "lw"@ {
        Some(35)
    } else if s == "sw"@ {
        Some(43)
    } else if s == "beq"@ {
        Some(4)
    } else if s == "addi"@ {
        Some(8)
    } else if s == "ori"@ {
        Some(13)
    } else if s == "j"@ {
        Some(2)
    } else {
        None
    }
}

/// The funct code of an R-family mnemonic: add=32, sub=34, and=36, or=37,
/// nor=39, slt=42, sll=0, jr=8, nop=0, sra=3, srl=2.
pub open spec fn spec_func(s: Seq<char>) -> Option<u8> {
    if s == "add"@ {
        Some(32)
    } else if s == "sub"@ {
        Some(34)
    } else if s == "and"@ {
        Some(36)
    } else if s == "or"@ {
        Some(37)
    } else if s == "nor"@ {
        Some(39)
    } else if s == "slt"@ {
        Some(42)
    } else if s == "sll"@ {
        Some(0)
    } else if s == "jr"@ {
        Some(8)
    } else if s == "nop"@ {
        Some(0)
    } else if s == "sra"@ {
        Some(3)
    } else if s == "srl"@ {
        Some(2)
    } else {
        None
    }
}

/// The mnemonic named by an opcode and (for opcode 0) a funct code.
pub open spec fn spec_operation(op: u8, func: u8) -> Option<Seq<char>> {
    if op == 0 {
        if func == 32 {
            Some("add"@)
        } else if func == 34 {
            Some("sub"@)
        } else if func == 36 {
            Some("and"@)
        } else if func == 37 {
            Some("or"@)
        } else if func == 39 {
            Some("nor"@)
        } else if func == 42 {
            Some("slt"@)
        } else if func == 0 {
            Some("sll"@)
        } else if func == 8 {
            Some("jr"@)
        } else if func == 3 {
            Some("sra"@)
        } else if func == 2 {
            Some("srl"@)
        } else {
            None
        }
    } else if op == 35 {
        Some("lw"@)
    } else if op == 43 {
        Some("sw"@)
    } else if op == 4 {
        Some("beq"@)
    } else if op == 8 {
        Some("addi"@)
    } else if op == 2 {
        Some("j"@)
    } else if op == 13 {
        Some("ori"@)
    } else {
        None
    }
}

/// The canonical name of a register number.
pub open spec fn spec_register_name(n: u8) -> Option<Seq<char>> {
    if n == 0 {
        Some("$zero"@)
    } else if n == 1 {
        Some("$at"@)
    } else if n == 2 {
        Some("$v0"@)
    } else if n == 3 {
        Some("$v1"@)
    } else if n == 4 {
        Some("$a0"@)
    } else if n == 5 {
        Some("$a1"@)
    } else if n == 6 {
        Some("$a2"@)
    } else if n == 7 {
        Some("$a3"@)
    } else if n == 8 {
        Some("$t0"@)
    } else if n == 9 {
        Some("$t1"@)
    } else if n == 10 {
        Some("$t2"@)
    } else if n == 11 {
        Some("$t3"@)
    } else if n == 12 {
        Some("$t4"@)
    } else if n == 13 {
        Some("$t5"@)
    } else if n == 14 {
        Some("$t6"@)
    } else if n == 15 {
        Some("$t7"@)
    } else if n == 16 {
        Some("$s0"@)
    } else if n == 17 {
        Some("$s1"@)
    } else if n == 18 {
        Some("$s2"@)
    } else if n == 19 {
        Some("$s3"@)
    } else if n == 20 {
        Some("$s4"@)
    } else if n == 21 {
        Some("$s5"@)
    } else if n == 22 {
        Some("$s6"@)
    } else if n == 23 {
        Some("$s7"@)
    } else if n == 24 {
        Some("$t8"@)
    } else if n == 25 {
        Some("$t9"@)
    } else if n == 26 {
        Some("$k0"@)
    } else if n == 27 {
        Some("$k1"@)
    } else if n == 28 {
        Some("$gp"@)
    } else if n == 29 {
        Some("$sp"@)
    } else if n == 30 {
        Some("$fp"@)
    } else if n == 31 {
        Some("$ra"@)
    } else {
        None
    }
}

/// The lower-case form of an ASCII letter; other characters are unchanged.
pub open spec fn spec_lower_char(c: char) -> char {
    if c == 'A' {
        'a'
    } else if c == 'B' {
        'b'
    } else if c == 'C' {
        'c'
    } else if c == 'D' {
        'd'
    } else if c == 'E' {
        'e'
    } else if c == 'F' {
        'f'
    } else if c == 'G' {
        'g'
    } else if c == 'H' {
        'h'
    } else if c == 'I' {
        'i'
    } else if c == 'J' {
        'j'
    } else if c == 'K' {
        'k'
    } else if c == 'L' {
        'l'
    } else if c == 'M' {
        'm'
    } else if c == 'N' {
        'n'
    } else if c == 'O' {
        'o'
    } else if c == 'P' {
        'p'
    } else if c == 'Q' {
        'q'
    } else if c == 'R' {
        'r'
    } else if c == 'S' {
        's'
    } else if c == 'T' {
        't'
    } else if c == 'U' {
        'u'
    } else if c == 'V' {
        'v'
    } else if c == 'W' {
        'w'
    } else if c == 'X' {
        'x'
    } else if c == 'Y' {
        'y'
    } else if c == 'Z' {
        'z'
    } else {
        c
    }
}

fn lower_char(c: char) -> (r: char)
    ensures
        r == spec_lower_char(c),
{
    match c {
        'A' => 'a',
        'B' => 'b',
        'C' => 'c',
        'D' => 'd',
        'E' => 'e',
        'F' => 'f',
        'G' => 'g',
        'H' => 'h',
        'I' => 'i',
        'J' => 'j',
        'K' => 'k',
        'L' => 'l',
        'M' => 'm',
        'N' => 'n',
        'O' => 'o',
        'P' => 'p',
        'Q' => 'q',
        'R' => 'r',
        'S' => 's',
        'T' => 't',
        'U' => 'u',
        'V' => 'v',
        'W' => 'w',
        'X' => 'x',
        'Y' => 'y',
        'Z' => 'z',
        _ => c,
    }
}

/// The value of a decimal digit character, or nothing for any other character.
pub open spec fn spec_to_decimal_digit(c: char) -> Option<u32> {
    if crate::numfmt::is_digit(c) {
        Some((c as u32 - 48) as u32)
    } else {
        None
    }
}

/// Parses the given character into a decimal digit.
pub fn to_decimal_digit(to_convert: char) -> (r: Option<u32>)
    ensures
        r == spec_to_decimal_digit(to_convert),
{
    let cv = to_convert as u32;
    if 48 <= cv && cv <= 57 {
        Some(cv - 48)
    } else {
        None
    }
}

/// The register number named by a register string: the ten canonical names are
/// matched as written; any other string of at least three characters is read,
/// case-insensitively, as a `$` followed by a group letter (s, t, k, v) and a
/// digit. A name that resolves to no register below 32 is rejected.
pub open spec fn spec_register_number(s: Seq<char>) -> Option<u8> {
    if s.len() < 3 {
        None
    } else if s == "$zero"@ {
        Some(0)
    } else if s == "$at"@ {
        Some(1)
    } else if s == "$a0"@ {
        Some(4)
    } else if s == "$a1"@ {
        Some(5)
    } else if s == "$a2"@ {
        Some(6)
    } else if s == "$a3"@ {
        Some(7)
    } else if s == "$gp"@ {
        Some(28)
    } else if s == "$sp"@ {
        Some(29)
    } else if s == "$fp"@ {
        Some(30)
    } else if s == "$ra"@ {
        Some(31)
    } else {
        let group = spec_lower_char(s[1]);
        let digit = spec_to_decimal_digit(spec_lower_char(s[2]));
        match digit {
            None => None,
            Some(d) => {
                let n: int = if group == 's' {
                    d + 16
                } else if group == 't' {
                    if d < 8 {
                        d + 8
                    } else {
                        d + 16
                    }
                } else if group == 'k' {
                    d + 26
                } else if group == 'v' {
                    d + 2
                } else {
                    -1
                };
                if 0 <= n < 32 {
                    Some(n as u8)
                } else {
                    None
                }
            },
        }
    }
}

/// The register number named by a register string, or nothing for an invalid
/// name.
pub fn get_register_number(register: &str) -> (r: Option<u8>)
    ensures
        r == spec_register_number(register@),
{
    if vstd::string::StrSliceExecFns::unicode_len(register) < 3 {
        return None;
    }
    if crate::text::str_eq(register, "$zero") {
        Some(0)
    } else if crate::text::str_eq(register, "$at") {
        Some(1)
    } else if crate::text::str_eq(register, "$a0") {
        Some(4)
    } else if crate::text::str_eq(register, "$a1") {
        Some(5)
    } else if crate::text::str_eq(register, "$a2") {
        Some(6)
    } else if crate::text::str_eq(register, "$a3") {
        Some(7)
    } else if crate::text::str_eq(register, "$gp") {
        Some(28)
    } else if crate::text::str_eq(register, "$sp") {
        Some(29)
    } else if crate::text::str_eq(register, "$fp") {
        Some(30)
    } else if crate::text::str_eq(register, "$ra") {
        Some(31)
    } else {
        let group = lower_char(vstd::string::StrSliceExecFns::get_char(register, 1));
        let digit = to_decimal_digit(lower_char(vstd::string::StrSliceExecFns::get_char(register, 2)));
        match digit {
            None => None,
            Some(d) => {
                let n: i32 = if group == 's' {
                    d as i32 + 16
                } else if group == 't' {
                    if d < 8 {
                        d as i32 + 8
                    } else {
                        d as i32 + 16
                    }
                } else if group == 'k' {
                    d as i32 + 26
                } else if group == 'v' {
                    d as i32 + 2
                } else {
                    -1
                };
                if 0 <= n && n < 32 {
                    Some(n as u8)
                } else {
                    None
                }
            },
        }
    }
}

/// The canonical name of a register number, or nothing for a number above 31.
pub fn get_register_name(register_number: u8) -> (r: Option<String>)
    ensures
        match r {
            Some(t) => spec_register_name(register_number) matches Some(u) && t@ == u,
            None => spec_register_name(register_number) is None,
        },
{
    match register_number {
        0 => Some(String::from_str("$zero")),
        1 => Some(String::from_str("$at")),
        2 => Some(String::from_str("$v0")),
        3 => Some(String::from_str("$v1")),
        4 => Some(String::from_str("$a0")),
        5 => Some(String::from_str("$a1")),
        6 => Some(String::from_str("$a2")),
        7 => Some(String::from_str("$a3")),
        8 => Some(String::from_str("$t0")),
        9 => Some(String::from_str("$t1")),
        10 => Some(String::from_str("$t2")),
        11 => Some(String::from_str("$t3")),
        12 => Some(String::from_str("$t4")),
        13 => Some(String::from_str("$t5")),
        14 => Some(String::from_str("$t6")),
        15 => Some(String::from_str("$t7")),
        16 => Some(String::from_str("$s0")),
        17 => Some(String::from_str("$s1")),
        18 => Some(String::from_str("$s2")),
        19 => Some(String::from_str("$s3")),
        20 => Some(String::from_str("$s4")),
        21 => Some(String::from_str("$s5")),
        22 => Some(String::from_str("$s6")),
        23 => Some(String::from_str("$s7")),
        24 => Some(String::from_str("$t8")),
        25 => Some(String::from_str("$t9")),
        26 => Some(String::from_str("$k0")),
        27 => Some(String::from_str("$k1")),
        28 => Some(String::from_str("$gp")),
        29 => Some(String::from_str("$sp")),
        30 => Some(String::from_str("$fp")),
        31 => Some(String::from_str("$ra")),
        _ => None,
    }
}

/// The opcode of a mnemonic, or nothing for an unsupported one.
pub fn get_numeric_op(instruction: &str) -> (r: Option<u8>)
    ensures
        r == spec_numeric_op(instruction@),
{
    if crate::text::str_eq(instruction, "add") || crate::text::str_eq(instruction, "sub")
        || crate::text::str_eq(instruction, "and") || crate::text::str_eq(instruction, "or")
        || crate::text::str_eq(instruction, "nor") || crate::text::str_eq(instruction, "slt")
        || crate::text::str_eq(instruction, "sll") || crate::text::str_eq(instruction, "jr")
        || crate::text::str_eq(instruction, "nop") || crate::text::str_eq(instruction, "sra")
        || crate::text::str_eq(instruction, "srl") {
        Some(0)
    } else if crate::text::str_eq(instruction, "lw") {
        Some(35)
    } else if crate::text::str_eq(instruction, "sw") {
        Some(43)
    } else if crate::text::str_eq(instruction, "beq") {
        Some(4)
    } else if crate::text::str_eq(instruction, "addi") {
        Some(8)
    } else if crate::text::str_eq(instruction, "ori") {
        Some(13)
    } else if crate::text::str_eq(instruction, "j") {
        Some(2)
    } else {
        None
    }
}

/// The funct code of an R-family mnemonic, or nothing for any other.
pub fn get_func(instruction: &str) -> (r: Option<u8>)
    ensures
        r == spec_func(instruction@),
{
    if crate::text::str_eq(instruction, "add") {
        Some(32)
    } else if crate::text::str_eq(instruction, "sub") {
        Some(34)
    } else if crate::text::str_eq(instruction, "and") {
        Some(36)
    } else if crate::text::str_eq(instruction, "or") {
        Some(37)
    } else if crate::text::str_eq(instruction, "nor") {
        Some(39)
    } else if crate::text::str_eq(instruction, "slt") {
        Some(42)
    } else if crate::text::str_eq(instruction, "sll") {
        Some(0)
    } else if crate::text::str_eq(instruction, "jr") {
        Some(8)
    } else if crate::text::str_eq(instruction, "nop") {
        Some(0)
    } else if crate::text::str_eq(instruction, "sra") {
        Some(3)
    } else if crate::text::str_eq(instruction, "srl") {
        Some(2)
    } else {
        None
    }
}

/// The mnemonic named by an opcode and (for opcode 0) a funct code, or nothing
/// for an unsupported pair.
pub fn get_operation(op: u8, func: u8) -> (r: Option<String>)
    ensures
        match r {
            Some(t) => spec_operation(op, func) matches Some(u) && t@ == u,
            None => spec_operation(op, func) is None,
        },
{
    if op == 0 {
        return match func {
            32 => Some(String::from_str("add")),
            34 => Some(String::from_str("sub")),
            36 => Some(String::from_str("and")),
            37 => Some(String::from_str("or")),
            39 => Some(String::from_str("nor")),
            42 => Some(String::from_str("slt")),
            0 => Some(String::from_str("sll")),
            8 => Some(String::from_str("jr")),
            3 => Some(String::from_str("sra")),
            2 => Some(String::from_str("srl")),
            _ => None,
        };
    }
    match op {
        35 => Some(String::from_str("lw")),
        43 => Some(String::from_str("sw")),
        4 => Some(String::from_str("beq")),
        8 => Some(String::from_str("addi")),
        2 => Some(String::from_str("j")),
        13 => Some(String::from_str("ori")),
        _ => None,
    }
}


// ---------------------------------------------------------------------------
// Constructors: from mnemonic and operand strings to instruction values.
// ---------------------------------------------------------------------------
/// The shift instruction built from a shift mnemonic, destination, source and
/// shift-amount strings: rs is 0 and the shift amount must fit five bits.
pub open spec fn spec_rtype_shift(
    ins: Seq<char>,
    rd: Seq<char>,
    rt: Seq<char>,
    shamt: Seq<char>,
) -> Option<RTypeInstruction> {
    match (
        spec_register_number(rd),
        spec_register_number(rt),
        crate::numfmt::spec_parse_uint(shamt),
        spec_func(ins),
    ) {
        (Some(rd_num), Some(rt_num), Some(sh), Some(func)) => if 0 <= sh < 32 {
            Some(
                RTypeInstruction {
                    op: 0,
                    rs: 0,
                    rt: rt_num,
                    rd: rd_num,
                    shamt: sh as u8,
                    func,
                },
            )
        } else {
            None
        },
        _ => None,
    }
}

/// The R-type instruction built from a mnemonic and three register strings;
/// a shift mnemonic reads its operands as destination, source and shift
/// amount instead.
pub open spec fn spec_rtype_new(
    ins: Seq<char>,
    rs: Seq<char>,
    rt: Seq<char>,
    rd: Seq<char>,
) -> Option<RTypeInstruction> {
    if ins == "sll"@ || ins == "sra"@ || ins == "srl"@ {
        spec_rtype_shift(ins, rd, rs, rt)
    } else {
        match (
            spec_numeric_op(ins),
            spec_register_number(rs),
            spec_register_number(rt),
            spec_register_number(rd),
            spec_func(ins),
        ) {
            (Some(op), Some(rs_num), Some(rt_num), Some(rd_num), Some(func)) => Some(
                RTypeInstruction { op, rs: rs_num, rt: rt_num, rd: rd_num, shamt: 0, func },
            ),
            _ => None,
        }
    }
}

impl RTypeInstruction {
    /// Builds an R-type instruction; a shift mnemonic is routed to `shift`
    /// with the operands read as destination, source and shift amount.
    pub fn new(instruction: &str, rs: &str, rt: &str, rd: &str) -> (r: Option<RTypeInstruction>)
        ensures
            r == spec_rtype_new(instruction@, rs@, rt@, rd@),
            r matches Some(i) ==> i.wf(),
    {
        if crate::text::str_eq(instruction, "sll") || crate::text::str_eq(instruction, "sra")
            || crate::text::str_eq(instruction, "srl") {
            return RTypeInstruction::shift(instruction, rd, rs, rt);
        }
        let numeric_op = match get_numeric_op(instruction) {
            Some(v) => v,
            None => {
                return None;
            },
        };
        let rs_num = match get_register_number(rs) {
            Some(v) => v,
            None => {
                return None;
            },
        };
        let rt_num = match get_register_number(rt) {
            Some(v) => v,
            None => {
                return None;
            },
        };
        let rd_num = match get_register_number(rd) {
            Some(v) => v,
            None => {
                return None;
            },
        };
        let numeric_func = match get_func(instruction) {
            Some(v) => v,
            None => {
                return None;
            },
        };
        Some(
            RTypeInstruction {
                op: numeric_op,
                rs: rs_num,
                rt: rt_num,
                rd: rd_num,
                shamt: 0,
                func: numeric_func,
            },
        )
    }

    /// Builds a shift instruction (`sll`, `srl`, `sra`): destination, source
    /// and a shift amount that must fit five bits.
    pub fn shift(instruction: &str, rd: &str, rt: &str, shamt: &str) -> (r: Option<
        RTypeInstruction,
    >)
        ensures
            r == spec_rtype_shift(instruction@, rd@, rt@, shamt@),
            r matches Some(i) ==> i.wf(),
    {
        let rd_num = match get_register_number(rd) {
            Some(v) => v,
            None => {
                return None;
            },
        };
        let rt_num = match get_register_number(rt) {
            Some(v) => v,
            None => {
                return None;
            },
        };
        let func = match get_func(instruction) {
            Some(v) => v,
            None => {
                return None;
            },
        };
        let shamt_num = match crate::numfmt::parse_u8(shamt) {
            Some(v) => v,
            None => {
                return None;
            },
        };
        if shamt_num >= 32 {
            return None;
        }
        Some(
            RTypeInstruction {
                op: 0,
                rs: 0,
                rt: rt_num,
                rd: rd_num,
                shamt: shamt_num,
                func,
            },
        )
    }
}

/// The supported mnemonics name distinct strings, so each resolves to its own
/// opcode and funct.
pub proof fn lemma_mnemonic_table()
    ensures
        spec_numeric_op("addi"@) == Some(8u8),
        spec_numeric_op("ori"@) == Some(13u8),
        spec_numeric_op("beq"@) == Some(4u8),
        spec_numeric_op("lw"@) == Some(35u8),
        spec_numeric_op("sw"@) == Some(43u8),
        spec_numeric_op("j"@) == Some(2u8),
{
    broadcast use vstd::string::group_string_axioms;

    reveal_strlit("add");
    reveal_strlit("sub");
    reveal_strlit("and");
    reveal_strlit("or");
    reveal_strlit("nor");
    reveal_strlit("slt");
    reveal_strlit("sll");
    reveal_strlit("jr");
    reveal_strlit("nop");
    reveal_strlit("sra");
    reveal_strlit("srl");
    reveal_strlit("lw");
    reveal_strlit("sw");
    reveal_strlit("beq");
    reveal_strlit("addi");
    reveal_strlit("ori");
    reveal_strlit("j");
    assert("add"@.len() == 3 && "add"@[0] == 'a');
    assert("sub"@.len() == 3 && "sub"@[0] == 's' && "sub"@[1] == 'u');
    assert("and"@.len() == 3 && "and"@[0] == 'a' && "and"@[1] == 'n');
    assert("or"@.len() == 2 && "or"@[0] == 'o');
    assert("nor"@.len() == 3 && "nor"@[0] == 'n' && "nor"@[1] == 'o');
    assert("slt"@.len() == 3 && "slt"@[0] == 's' && "slt"@[1] == 'l' && "slt"@[2] == 't');
    assert("sll"@.len() == 3 && "sll"@[0] == 's' && "sll"@[1] == 'l' && "sll"@[2] == 'l');
    assert("jr"@.len() == 2 && "jr"@[0] == 'j');
    assert("nop"@.len() == 3 && "nop"@[0] == 'n' && "nop"@[1] == 'o');
    assert("sra"@.len() == 3 && "sra"@[0] == 's' && "sra"@[1] == 'r' && "sra"@[2] == 'a');
    assert("srl"@.len() == 3 && "srl"@[0] == 's' && "srl"@[1] == 'r' && "srl"@[2] == 'l');
    assert("lw"@.len() == 2 && "lw"@[0] == 'l');
    assert("sw"@.len() == 2 && "sw"@[0] == 's' && "sw"@[1] == 'w');
    assert("beq"@.len() == 3 && "beq"@[0] == 'b');
    assert("addi"@.len() == 4);
    assert("ori"@.len() == 3 && "ori"@[0] == 'o');
    assert("j"@.len() == 1);
}

/// The `beq` instruction built at the given address: the immediate string
/// names an absolute byte target (already resolved from a label if one was
/// written); the stored immediate is the byte offset from the address after
/// the branch, and must fit sixteen signed bits.
pub open spec fn spec_itype_beq(
    ins: Seq<char>,
    rs: Seq<char>,
    rt: Seq<char>,
    imm: Seq<char>,
    current_addr: u32,
) -> Option<ITypeInstruction> {
    if ins != "beq"@ {
        None
    } else {
        spec_itype_beq_fields(rs, rt, imm, current_addr)
    }
}

/// The field resolution of `spec_itype_beq`.
pub open spec fn spec_itype_beq_fields(
    rs: Seq<char>,
    rt: Seq<char>,
    imm: Seq<char>,
    current_addr: u32,
) -> Option<ITypeInstruction> {
    match (
        spec_register_number(rs),
        spec_register_number(rt),
        crate::numfmt::spec_parse_int(imm),
    ) {
        (Some(rs_num), Some(rt_num), Some(target)) => if -0x8000 <= target <= 0x7FFF {
            let offset = target - (current_addr + 4);
            if -0x8000 <= offset <= 0x7FFF {
                Some(ITypeInstruction { op: OP_BEQ, rs: rs_num, rt: rt_num, imm: offset as i16 })
            } else {
                None
            }
        } else {
            None
        },
        _ => None,
    }
}

/// The I-type instruction built from a mnemonic (`addi`, `ori` or `beq`), two
/// register strings and an immediate string. For `beq` the rs and rt operands
/// are swapped before building, matching the written order `beq rs, rt,
/// target`.
pub open spec fn spec_itype_new(
    ins: Seq<char>,
    rs: Seq<char>,
    rt: Seq<char>,
    imm: Seq<char>,
    current_addr: u32,
) -> Option<ITypeInstruction> {
    if ins == "beq"@ {
        spec_itype_beq(ins, rt, rs, imm, current_addr)
    } else if ins == "addi"@ || ins == "ori"@ {
        match (
            spec_register_number(rt),
            spec_register_number(rs),
            spec_numeric_op(ins),
            crate::numfmt::spec_parse_int(imm),
        ) {
            (Some(rt_num), Some(rs_num), Some(op), Some(v)) => if -0x8000 <= v <= 0x7FFF {
                Some(ITypeInstruction { op, rs: rs_num, rt: rt_num, imm: v as i16 })
            } else {
                None
            },
            _ => None,
        }
    } else {
        None
    }
}

impl ITypeInstruction {
    /// Builds an I-type instruction (`addi`, `ori`, `beq`); the immediate must
    /// fit sixteen signed bits, and for `beq` it is an absolute byte target
    /// turned into an offset from the address after the branch.
    pub fn new(instruction: &str, rs: &str, rt: &str, imm: &str, current_addr: u32) -> (r: Option<
        ITypeInstruction,
    >)
        ensures
            r == spec_itype_new(instruction@, rs@, rt@, imm@, current_addr),
            r matches Some(i) ==> i.wf(),
    {
        if crate::text::str_eq(instruction, "beq") {
            return ITypeInstruction::beq(instruction, rt, rs, imm, current_addr);
        }
        if !(crate::text::str_eq(instruction, "addi") || crate::text::str_eq(instruction, "ori")) {
            return None;
        }
        let rt_num = match get_register_number(rt) {
            Some(v) => v,
            None => {
                return None;
            },
        };
        let rs_num = match get_register_number(rs) {
            Some(v) => v,
            None => {
                return None;
            },
        };
        let numeric_op = match get_numeric_op(instruction) {
            Some(v) => v,
            None => {
                return None;
            },
        };
        let imm_numeric = match crate::numfmt::parse_i16(imm) {
            Some(v) => v,
            None => {
                return None;
            },
        };
        proof {
            lemma_mnemonic_table();
        }
        Some(ITypeInstruction { op: numeric_op, rs: rs_num, rt: rt_num, imm: imm_numeric })
    }

    /// Builds a `beq`: the immediate string is an absolute byte target and the
    /// stored immediate is its offset from the address after the branch.
    pub fn beq(instruction: &str, rs: &str, rt: &str, imm: &str, current_addr: u32) -> (r: Option<
        ITypeInstruction,
    >)
        ensures
            r == spec_itype_beq(instruction@, rs@, rt@, imm@, current_addr),
            r matches Some(i) ==> i.wf(),
    {
        if !crate::text::str_eq(instruction, "beq") {
            return None;
        }
        let rt_num = match get_register_number(rt) {
            Some(v) => v,
            None => {
                return None;
            },
        };
        let rs_num = match get_register_number(rs) {
            Some(v) => v,
            None => {
                return None;
            },
        };
        let target = match crate::numfmt::parse_i16(imm) {
            Some(v) => v,
            None => {
                return None;
            },
        };
        let offset: i64 = (target as i64) - ((current_addr as i64) + 4);
        if offset < -0x8000 || offset > 0x7FFF {
            return None;
        }
        Some(ITypeInstruction { op: OP_BEQ, rs: rs_num, rt: rt_num, imm: offset as i16 })
    }
}

/// The memory-access instruction built from a mnemonic (`lw` or `sw`), a
/// target register, a signed byte offset and a base register.
pub open spec fn spec_mem_new(
    ins: Seq<char>,
    rt: Seq<char>,
    offset: Seq<char>,
    base: Seq<char>,
) -> Option<MemoryAccessTypeInstruction> {
    if ins == "lw"@ || ins == "sw"@ {
        match (
            spec_numeric_op(ins),
            spec_register_number(rt),
            spec_register_number(base),
            crate::numfmt::spec_parse_int(offset),
        ) {
            (Some(op), Some(rt_num), Some(base_num), Some(v)) => if -0x8000 <= v <= 0x7FFF {
                Some(MemoryAccessTypeInstruction { op, base: base_num, rt: rt_num, offset: v as i16 })
            } else {
                None
            },
            _ => None,
        }
    } else {
        None
    }
}

impl MemoryAccessTypeInstruction {
    /// Builds a memory access (`lw` or `sw`); the byte offset must fit sixteen
    /// signed bits.
    pub fn new(instruction: &str, rt: &str, offset: &str, base: &str) -> (r: Option<
        MemoryAccessTypeInstruction,
    >)
        ensures
            r == spec_mem_new(instruction@, rt@, offset@, base@),
            r matches Some(i) ==> i.wf(),
    {
        if !(crate::text::str_eq(instruction, "lw") || crate::text::str_eq(instruction, "sw")) {
            return None;
        }
        let num_op = match get_numeric_op(instruction) {
            Some(v) => v,
            None => {
                return None;
            },
        };
        let rt_num = match get_register_number(rt) {
            Some(v) => v,
            None => {
                return None;
            },
        };
        let base_num = match get_register_number(base) {
            Some(v) => v,
            None => {
                return None;
            },
        };
        let offset_num = match crate::numfmt::parse_i16(offset) {
            Some(v) => v,
            None => {
                return None;
            },
        };
        proof {
            lemma_mnemonic_table();
        }
        Some(MemoryAccessTypeInstruction { op: num_op, base: base_num, rt: rt_num, offset: offset_num })
    }
}

/// The jump instruction built from the `j` mnemonic and an absolute byte
/// target that must fit twenty-six bits.
pub open spec fn spec_jtype_new(op: Seq<char>, target: Seq<char>) -> Option<JTypeInstruction> {
    if op == "j"@ {
        match crate::numfmt::spec_parse_uint(target) {
            Some(v) => if 0 <= v < PLACE_OP {
                Some(JTypeInstruction { op: 2, addr: v as u32 })
            } else {
                None
            },
            None => None,
        }
    } else {
        None
    }
}

impl JTypeInstruction {
    /// Builds a jump; the absolute byte target must fit twenty-six bits.
    pub fn new(op: &str, target: &str) -> (r: Option<JTypeInstruction>)
        ensures
            r == spec_jtype_new(op@, target@),
            r matches Some(i) ==> i.wf(),
    {
        if !crate::text::str_eq(op, "j") {
            return None;
        }
        let numeric_target = match crate::numfmt::parse_u32(target) {
            Some(v) => v,
            None => {
                return None;
            },
        };
        if numeric_target >= PLACE_OP {
            return None;
        }
        Some(JTypeInstruction { op: 2, addr: numeric_target })
    }
}

/// The jump-register instruction built from the `jr` mnemonic and a register
/// string.
pub open spec fn spec_jrtype_new(ins: Seq<char>, rs: Seq<char>) -> Option<JRTypeInstruction> {
    if ins == "jr"@ {
        match spec_register_number(rs) {
            Some(rs_num) => Some(
                JRTypeInstruction { op: 0, rs: rs_num, zero: 0, hint: 0, func: 8 },
            ),
            None => None,
        }
    } else {
        None
    }
}

impl JRTypeInstruction {
    /// Builds a jump-register instruction.
    pub fn new(instruction: &str, rs: &str) -> (r: Option<JRTypeInstruction>)
        ensures
            r == spec_jrtype_new(instruction@, rs@),
            r matches Some(i) ==> i.wf(),
    {
        if !crate::text::str_eq(instruction, "jr") {
            return None;
        }
        let rs_num = match get_register_number(rs) {
            Some(v) => v,
            None => {
                return None;
            },
        };
        Some(JRTypeInstruction { op: 0, rs: rs_num, zero: 0, hint: 0, func: 8 })
    }
}


// ---------------------------------------------------------------------------
// Argument parsing: from the text after a mnemonic to operand strings.
// ---------------------------------------------------------------------------
/// The comma-separated pieces of the argument text, each trimmed (empty pieces
/// kept).
pub open spec fn trimmed_pieces(s: Seq<char>) -> Seq<Seq<char>> {
    crate::text::split_char(s, ',').map_values(|t: Seq<char>| crate::text::spec_trim(t))
}

/// The non-empty entries of a piece list, in order.
pub open spec fn keep_nonempty(ts: Seq<Seq<char>>) -> Seq<Seq<char>>
    decreases ts.len(),
{
    if ts.len() == 0 {
        Seq::empty()
    } else {
        let init = keep_nonempty(ts.drop_last());
        if ts.last().len() > 0 {
            init.push(ts.last())
        } else {
            init
        }
    }
}

/// The operands of an R-, I- or J-form argument list: the comma-separated
/// pieces, trimmed, with empty pieces dropped.
pub open spec fn spec_plain_args(s: Seq<char>) -> Seq<Seq<char>> {
    keep_nonempty(trimmed_pieces(s))
}

/// How many operands each instruction form takes.
pub open spec fn spec_expected_args(t: InstructionType) -> int {
    match t {
        InstructionType::RType => 3,
        InstructionType::IType => 3,
        InstructionType::MemoryAccessType => 3,
        InstructionType::JType => 1,
        InstructionType::JRType => 1,
        InstructionType::NopType => 0,
        InstructionType::TerminateInstructionType => 0,
    }
}

/// The operands of a memory access written `rt, offset(base)`: the piece
/// before the comma, the text before the `(`, and the text between the `(`
/// and the `)`, the last two trimmed.
pub open spec fn spec_mem_args(s: Seq<char>) -> Option<Seq<Seq<char>>> {
    let ts = trimmed_pieces(s);
    if ts.len() < 2 {
        None
    } else {
        let a1 = ts[1];
        let p = crate::text::find(a1, '(');
        if p == a1.len() {
            None
        } else {
            let seg = a1.subrange(p + 1, crate::text::find_from(a1, '(', p + 1));
            let q = crate::text::find(seg, ')');
            if q == seg.len() {
                None
            } else {
                Some(
                    seq![
                        ts[0],
                        crate::text::spec_trim(a1.subrange(0, p)),
                        crate::text::spec_trim(seg.subrange(0, q)),
                    ],
                )
            }
        }
    }
}

/// The single operand of a `jr`: the trimmed argument text, which must hold no
/// comma.
pub open spec fn spec_jr_args(s: Seq<char>) -> Option<Seq<Seq<char>>> {
    let ts = trimmed_pieces(s);
    if ts.len() == 1 {
        Some(seq![ts[0]])
    } else {
        None
    }
}

/// The operand strings of an argument text, by instruction form; nothing on an
/// arity mismatch or a malformed memory operand.
pub open spec fn spec_parse_arguments(s: Seq<char>, t: InstructionType) -> Option<Seq<Seq<char>>> {
    match t {
        InstructionType::MemoryAccessType => spec_mem_args(s),
        InstructionType::JRType => spec_jr_args(s),
        _ => {
            let args = spec_plain_args(s);
            if args.len() == spec_expected_args(t) {
                Some(args)
            } else {
                None
            }
        },
    }
}

/// The comma-separated pieces of the argument text, each trimmed.
fn split_and_trim(argument_string: &str) -> (r: Vec<String>)
    ensures
        r@.map_values(|t: String| t@) == trimmed_pieces(argument_string@),
{
    let pieces = crate::text::split_string(argument_string, ',');
    let mut out: Vec<String> = Vec::new();
    let mut i: usize = 0;
    while i < pieces.len()
        invariant
            i <= pieces@.len(),
            out@.len() == i,
            pieces@.map_values(|t: String| t@) == crate::text::split_char(argument_string@, ','),
            forall|j: int|
                0 <= j < i ==> (#[trigger] out@[j])@ == crate::text::spec_trim(pieces@[j]@),
        decreases pieces@.len() - i,
    {
        proof {
            assert(pieces@[i as int]@ == pieces@.map_values(|t: String| t@)[i as int]);
        }
        let t = crate::text::trim_str(pieces[i].as_str()).to_owned();
        out.push(t);
        i = i + 1;
    }
    proof {
        assert forall|j: int| 0 <= j < out@.len() implies out@.map_values(|t: String| t@)[j]
            == trimmed_pieces(argument_string@)[j] by {
            assert(out@[j]@ == crate::text::spec_trim(pieces@[j]@));
            assert(pieces@[j]@ == pieces@.map_values(|t: String| t@)[j]);
        }
        assert(out@.map_values(|t: String| t@) =~= trimmed_pieces(argument_string@));
    }
    out
}

/// How many operands the instruction form takes.
pub fn get_expected_num_arguments(instruction_type: &InstructionType) -> (r: usize)
    ensures
        r == spec_expected_args(*instruction_type),
{
    match instruction_type {
        InstructionType::RType | InstructionType::IType | InstructionType::MemoryAccessType => 3,
        InstructionType::JType | InstructionType::JRType => 1,
        InstructionType::NopType | InstructionType::TerminateInstructionType => 0,
    }
}

/// Parses the operands of a memory access written `rt, offset(base)`.
pub fn parse_memory_access_arguments(argument_string: &str) -> (r: Result<Vec<String>, String>)
    ensures
        match r {
            Ok(v) => spec_mem_args(argument_string@) matches Some(args) && v@.map_values(
                |t: String| t@,
            ) == args,
            Err(_) => spec_mem_args(argument_string@) is None,
        },
{
    let arg_vec = split_and_trim(argument_string);
    if arg_vec.len() < 2 {
        return Err(
            String::from_str(
                "Argument string did not contain comma, expects comma separating arguments",
            ),
        );
    }
    let a1: &str = arg_vec[1].as_str();
    let a1_len = vstd::string::StrSliceExecFns::unicode_len(a1);
    let p = crate::text::find_char(a1, '(');
    proof {
        crate::text::lemma_find_from_props(a1@, '(', 0);
    }
    if p == a1_len {
        return Err(
            String::from_str("Memory access instruction does not contain opening parentheses"),
        );
    }
    let p2 = crate::text::find_char_from(a1, '(', p + 1);
    proof {
        crate::text::lemma_find_from_props(a1@, '(', p + 1);
    }
    let seg: &str = a1.substring_char(p + 1, p2);
    let seg_len = vstd::string::StrSliceExecFns::unicode_len(seg);
    let q = crate::text::find_char(seg, ')');
    proof {
        crate::text::lemma_find_from_props(seg@, ')', 0);
    }
    if q == seg_len {
        return Err(String::from_str("Could not find closing parenthesis in memory instruction"));
    }
    let offset_part = crate::text::trim_str(a1.substring_char(0, p)).to_owned();
    let base_part = crate::text::trim_str(seg.substring_char(0, q)).to_owned();
    let mut out: Vec<String> = Vec::new();
    let first = arg_vec[0].clone();
    out.push(first);
    out.push(offset_part);
    out.push(base_part);
    proof {
        let args = spec_mem_args(argument_string@)->0;
        assert(out@.map_values(|t: String| t@) =~= args);
    }
    Ok(out)
}

/// Parses the single operand of a `jr`.
pub fn parse_jr_arguments(argument_string: &str) -> (r: Result<Vec<String>, String>)
    ensures
        match r {
            Ok(v) => spec_jr_args(argument_string@) matches Some(args) && v@.map_values(
                |t: String| t@,
            ) == args,
            Err(_) => spec_jr_args(argument_string@) is None,
        },
{
    let arg_vec = split_and_trim(argument_string);
    if arg_vec.len() == 1 {
        let mut out: Vec<String> = Vec::new();
        let first = arg_vec[0].clone();
        out.push(first);
        proof {
            let args = spec_jr_args(argument_string@)->0;
            assert(out@.map_values(|t: String| t@) =~= args);
        }
        return Ok(out);
    }
    Err(String::from_str("jr takes exactly one register operand"))
}

/// Parses the operand strings of an argument text by instruction form: the
/// comma-separated pieces, trimmed (with the memory form's `offset(base)`
/// taken apart), or an error on an arity mismatch.
pub fn parse_arguments(argument_string: &str, instruction_type: &InstructionType) -> (r: Result<
    Vec<String>,
    String,
>)
    ensures
        match r {
            Ok(v) => spec_parse_arguments(argument_string@, *instruction_type) matches Some(args)
                && v@.map_values(|t: String| t@) == args && v@.len() == spec_expected_args(
                *instruction_type,
            ),
            Err(_) => spec_parse_arguments(argument_string@, *instruction_type) is None,
        },
{
    match instruction_type {
        InstructionType::MemoryAccessType => {
            let res = parse_memory_access_arguments(argument_string);
            proof {
                if res is Ok {
                    let args = spec_mem_args(argument_string@)->0;
                    assert(args.len() == 3);
                    assert(res->Ok_0@.len() == res->Ok_0@.map_values(|t: String| t@).len());
                }
            }
            res
        },
        InstructionType::JRType => {
            let res = parse_jr_arguments(argument_string);
            proof {
                if res is Ok {
                    let args = spec_jr_args(argument_string@)->0;
                    assert(args.len() == 1);
                    assert(res->Ok_0@.len() == res->Ok_0@.map_values(|t: String| t@).len());
                }
            }
            res
        },
        _ => {
            let ts = split_and_trim(argument_string);
            let mut arg_vec: Vec<String> = Vec::new();
            let ghost tp = trimmed_pieces(argument_string@);
            let mut i: usize = 0;
            proof {
                assert(tp.subrange(0, 0) =~= Seq::<Seq<char>>::empty());
                assert(arg_vec@.map_values(|t: String| t@) =~= keep_nonempty(tp.subrange(0, 0)));
            }
            while i < ts.len()
                invariant
                    i <= ts@.len(),
                    ts@.map_values(|t: String| t@) == tp,
                    arg_vec@.map_values(|t: String| t@) == keep_nonempty(tp.subrange(0, i as int)),
                decreases ts@.len() - i,
            {
                let ghost prev = tp.subrange(0, i as int);
                proof {
                    assert(tp.subrange(0, i + 1).drop_last() =~= prev);
                    assert(tp.subrange(0, i + 1).last() == tp[i as int]);
                }
                if vstd::string::StrSliceExecFns::unicode_len(ts[i].as_str()) > 0 {
                    let piece = ts[i].clone();
                    arg_vec.push(piece);
                }
                i = i + 1;
            }
            proof {
                assert(tp.subrange(0, tp.len() as int) =~= tp);
            }
            let expected_num_args = get_expected_num_arguments(instruction_type);
            if arg_vec.len() != expected_num_args {
                return Err(String::from_str("unexpected number of arguments for the instruction"));
            }
            Ok(arg_vec)
        },
    }
}

/// The first space-separated token of the trimmed line.
pub open spec fn spec_first_token(s: Seq<char>) -> Seq<char> {
    let t = crate::text::spec_trim(s);
    t.subrange(0, crate::text::find(t, ' '))
}

/// The text of the trimmed line from the first space on (empty without one).
pub open spec fn spec_rest_of_line(s: Seq<char>) -> Seq<char> {
    let t = crate::text::spec_trim(s);
    t.subrange(crate::text::find(t, ' '), t.len() as int)
}

/// The first space-separated token of the trimmed line names a supported
/// mnemonic.
pub fn contains_supported_instruction(instruction: &str) -> (r: bool)
    ensures
        r == spec_valid_mnemonic(spec_first_token(instruction@)),
{
    let t = crate::text::trim_str(instruction);
    let j = crate::text::find_char(t, ' ');
    proof {
        crate::text::lemma_find_from_props(t@, ' ', 0);
    }
    let tok = t.substring_char(0, j);
    crate::text::str_eq(tok, "add") || crate::text::str_eq(tok, "sub") || crate::text::str_eq(
        tok,
        "and",
    ) || crate::text::str_eq(tok, "or") || crate::text::str_eq(tok, "nor") || crate::text::str_eq(
        tok,
        "slt",
    ) || crate::text::str_eq(tok, "sll") || crate::text::str_eq(tok, "jr") || crate::text::str_eq(
        tok,
        "nop",
    ) || crate::text::str_eq(tok, "lw") || crate::text::str_eq(tok, "sw") || crate::text::str_eq(
        tok,
        "beq",
    ) || crate::text::str_eq(tok, "addi") || crate::text::str_eq(tok, "j") || crate::text::str_eq(
        tok,
        "ori",
    ) || crate::text::str_eq(tok, "srl") || crate::text::str_eq(tok, "sra") || crate::text::str_eq(
        tok,
        "exit",
    )
}

/// The instruction form named by a mnemonic.
pub open spec fn spec_instruction_type(s: Seq<char>) -> Option<InstructionType> {
    if s == "nop"@ {
        Some(InstructionType::NopType)
    } else if s == "exit"@ {
        Some(InstructionType::TerminateInstructionType)
    } else if s == "srl"@ || s == "sra"@ || s == "add"@ || s == "sub"@ || s == "and"@ || s == "or"@
        || s == "nor"@ || s == "slt"@ || s == "sll"@ {
        Some(InstructionType::RType)
    } else if s == "ori"@ || s == "addi"@ || s == "beq"@ {
        Some(InstructionType::IType)
    } else if s == "j"@ {
        Some(InstructionType::JType)
    } else if s == "jr"@ {
        Some(InstructionType::JRType)
    } else if s == "lw"@ || s == "sw"@ {
        Some(InstructionType::MemoryAccessType)
    } else {
        None
    }
}

/// Classifies a mnemonic into its instruction form; an unsupported mnemonic is
/// an error naming it.
pub fn get_instruction_type(instruction: &str) -> (r: Result<InstructionType, String>)
    ensures
        match r {
            Ok(t) => spec_instruction_type(instruction@) == Some(t),
            Err(m) => spec_instruction_type(instruction@) is None && m@ == instruction@
                + " is not a valid instruction"@,
        },
{
    if crate::text::str_eq(instruction, "nop") {
        Ok(InstructionType::NopType)
    } else if crate::text::str_eq(instruction, "exit") {
        Ok(InstructionType::TerminateInstructionType)
    } else if crate::text::str_eq(instruction, "srl") || crate::text::str_eq(instruction, "sra")
        || crate::text::str_eq(instruction, "add") || crate::text::str_eq(instruction, "sub")
        || crate::text::str_eq(instruction, "and") || crate::text::str_eq(instruction, "or")
        || crate::text::str_eq(instruction, "nor") || crate::text::str_eq(instruction, "slt")
        || crate::text::str_eq(instruction, "sll") {
        Ok(InstructionType::RType)
    } else if crate::text::str_eq(instruction, "ori") || crate::text::str_eq(instruction, "addi")
        || crate::text::str_eq(instruction, "beq") {
        Ok(InstructionType::IType)
    } else if crate::text::str_eq(instruction, "j") {
        Ok(InstructionType::JType)
    } else if crate::text::str_eq(instruction, "jr") {
        Ok(InstructionType::JRType)
    } else if crate::text::str_eq(instruction, "lw") || crate::text::str_eq(instruction, "sw") {
        Ok(InstructionType::MemoryAccessType)
    } else {
        let mut msg = instruction.to_owned();
        msg.append(" is not a valid instruction");
        Err(msg)
    }
}


// ---------------------------------------------------------------------------
// From a source line to an instruction value.
// ---------------------------------------------------------------------------
/// The mnemonic token, instruction form and operand strings of an instruction
/// line (comment and label already removed), or nothing when the mnemonic is
/// unsupported or the operands do not parse.
pub open spec fn spec_line_parts(s: Seq<char>) -> Option<
    (Seq<Seq<char>>, InstructionType, Seq<char>),
> {
    let tok = spec_first_token(s);
    match spec_instruction_type(tok) {
        None => None,
        Some(ty) => match spec_parse_arguments(spec_rest_of_line(s), ty) {
            None => None,
            Some(args) => Some((args, ty, tok)),
        },
    }
}

/// The instruction built from operand strings of the given form: registers are
/// resolved through the canonical table, immediates parsed as signed decimals,
/// and an I-type immediate or a jump target that is no number is looked up as
/// a label and its byte address used instead (for `beq` the label's address is
/// the branch target).
pub open spec fn spec_create_instruction(
    args: Seq<Seq<char>>,
    ty: InstructionType,
    ins: Seq<char>,
    table: Seq<(Seq<char>, u32)>,
    current_addr: u32,
) -> Option<Instruction>
    recommends
        args.len() == spec_expected_args(ty),
{
    match ty {
        InstructionType::NopType => Some(Instruction::NopType(NopTypeInstruction {  })),
        InstructionType::TerminateInstructionType => Some(
            Instruction::TerminateInstructionType(TerminateInstruction {  }),
        ),
        InstructionType::RType => match spec_rtype_new(ins, args[1], args[2], args[0]) {
            Some(i) => Some(Instruction::RType(i)),
            None => None,
        },
        InstructionType::IType => match spec_itype_new(ins, args[1], args[0], args[2],
            current_addr) {
            Some(i) => Some(Instruction::IType(i)),
            None => match crate::assembler::first_pass::spec_lookup(table, args[2]) {
                None => None,
                Some(a) => match spec_itype_new(
                    ins,
                    args[1],
                    args[0],
                    crate::numfmt::spec_dec_nat(a as nat),
                    current_addr,
                ) {
                    Some(i) => Some(Instruction::IType(i)),
                    None => None,
                },
            },
        },
        InstructionType::JType => match crate::assembler::first_pass::spec_lookup(
            table,
            args[0],
        ) {
            None => None,
            Some(t) => match spec_jtype_new(ins, crate::numfmt::spec_dec_nat(t as nat)) {
                Some(i) => Some(Instruction::JType(i)),
                None => None,
            },
        },
        InstructionType::JRType => match spec_jrtype_new(ins, args[0]) {
            Some(i) => Some(Instruction::JRType(i)),
            None => None,
        },
        InstructionType::MemoryAccessType => match spec_mem_new(ins, args[0], args[1], args[2]) {
            Some(i) => Some(Instruction::MemoryAccessType(i)),
            None => None,
        },
    }
}

/// Splits an instruction line (comment and label already removed) into its
/// operand strings, its instruction form and its mnemonic token.
pub fn get_arguments_instruction_type_instruction<'a>(line: &'a str) -> (r: Result<
    (Vec<String>, InstructionType, &'a str),
    String,
>)
    ensures
        match r {
            Ok(parts) => spec_line_parts(line@) matches Some(sp) && parts.0@.map_values(
                |t: String| t@,
            ) == sp.0 && parts.1 == sp.1 && parts.2@ == sp.2 && parts.0@.len()
                == spec_expected_args(parts.1),
            Err(_) => spec_line_parts(line@) is None,
        },
{
    let line_trimmed = crate::text::trim_str(line);
    let trimmed_len = vstd::string::StrSliceExecFns::unicode_len(line_trimmed);
    let delim = crate::text::find_char(line_trimmed, ' ');
    proof {
        crate::text::lemma_find_from_props(line_trimmed@, ' ', 0);
    }
    let instruction: &str = line_trimmed.substring_char(0, delim);
    let argument_string: &str = line_trimmed.substring_char(delim, trimmed_len);
    let instruction_type = match get_instruction_type(instruction) {
        Ok(t) => t,
        Err(e) => {
            return Err(e);
        },
    };
    let arguments = match parse_arguments(argument_string, &instruction_type) {
        Ok(v) => v,
        Err(e) => {
            return Err(e);
        },
    };
    Ok((arguments, instruction_type, instruction))
}

/// Builds the instruction of the given form from its operand strings, at the
/// given instruction address and with the labels of pass 1 in scope.
pub fn create_instruction(
    arguments: Vec<String>,
    instruction_type: &InstructionType,
    instruction: &str,
    symbol_table: &crate::assembler::first_pass::SymbolTable,
    current_addr: u32,
) -> (r: Result<Instruction, String>)
    requires
        arguments@.len() == spec_expected_args(*instruction_type),
    ensures
        match r {
            Ok(i) => spec_create_instruction(
                arguments@.map_values(|t: String| t@),
                *instruction_type,
                instruction@,
                symbol_table@,
                current_addr,
            ) == Some(i) && i.wf(),
            Err(_) => spec_create_instruction(
                arguments@.map_values(|t: String| t@),
                *instruction_type,
                instruction@,
                symbol_table@,
                current_addr,
            ) is None,
        },
{
    let ghost argvs = arguments@.map_values(|t: String| t@);
    match instruction_type {
        InstructionType::NopType => Ok(Instruction::NopType(NopTypeInstruction {  })),
        InstructionType::TerminateInstructionType => Ok(
            Instruction::TerminateInstructionType(TerminateInstruction {  }),
        ),
        InstructionType::RType => {
            let maybe_instr = RTypeInstruction::new(
                instruction,
                arguments[1].as_str(),
                arguments[2].as_str(),
                arguments[0].as_str(),
            );
            if let Some(instr) = maybe_instr {
                return Ok(Instruction::RType(instr));
            }
            Err(String::from_str("Could not create R-Type instruction from given string!"))
        },
        InstructionType::IType => {
            let maybe_instr = ITypeInstruction::new(
                instruction,
                arguments[1].as_str(),
                arguments[0].as_str(),
                arguments[2].as_str(),
                current_addr,
            );
            if let Some(instr) = maybe_instr {
                return Ok(Instruction::IType(instr));
            }
            // The immediate could have been a label rather than a number.
            let maybe_addr = symbol_table.get(arguments[2].as_str());
            let addr = match maybe_addr {
                Some(a) => a,
                None => {
                    return Err(
                        String::from_str(
                            "Could not find an address for the label in the given symbol table.",
                        ),
                    );
                },
            };
            let addr_text = crate::numfmt::dec_string_u64(addr as u64);
            let maybe_instr = ITypeInstruction::new(
                instruction,
                arguments[1].as_str(),
                arguments[0].as_str(),
                addr_text.as_str(),
                current_addr,
            );
            if let Some(instr) = maybe_instr {
                return Ok(Instruction::IType(instr));
            }
            Err(String::from_str("Could not create I-Type instruction from given string!"))
        },
        InstructionType::JType => {
            let target = match symbol_table.get(arguments[0].as_str()) {
                Some(t) => t,
                None => {
                    return Err(
                        String::from_str("Could not find address for label in symbol table"),
                    );
                },
            };
            let target_text = crate::numfmt::dec_string_u64(target as u64);
            let maybe_instr = JTypeInstruction::new(instruction, target_text.as_str());
            if let Some(instr) = maybe_instr {
                return Ok(Instruction::JType(instr));
            }
            Err(String::from_str("Could not create J-Type instruction with the given target"))
        },
        InstructionType::JRType => {
            if let Some(instr) = JRTypeInstruction::new(instruction, arguments[0].as_str()) {
                return Ok(Instruction::JRType(instr));
            }
            Err(String::from_str("Could not create JR-Type instruction from line"))
        },
        InstructionType::MemoryAccessType => {
            let maybe_instr = MemoryAccessTypeInstruction::new(
                instruction,
                arguments[0].as_str(),
                arguments[1].as_str(),
                arguments[2].as_str(),
            );
            if let Some(instr) = maybe_instr {
                return Ok(Instruction::MemoryAccessType(instr));
            }
            Err(String::from_str("Could not create memory access instruction from given string!"))
        },
    }
}

/// The instruction of a line with comment and label already removed, or
/// nothing when the line does not parse.
pub open spec fn spec_parse_nocl(
    s: Seq<char>,
    table: Seq<(Seq<char>, u32)>,
    current_addr: u32,
) -> Option<Instruction> {
    match spec_line_parts(s) {
        None => None,
        Some((args, ty, tok)) => spec_create_instruction(args, ty, tok, table, current_addr),
    }
}

/// Parses an instruction from a line whose comment and label were already
/// removed.
pub fn parse_instruction_without_comment_label(
    line: &str,
    symbol_table: &crate::assembler::first_pass::SymbolTable,
    current_addr: u32,
) -> (r: Result<Instruction, String>)
    ensures
        match r {
            Ok(i) => spec_parse_nocl(line@, symbol_table@, current_addr) == Some(i) && i.wf(),
            Err(_) => spec_parse_nocl(line@, symbol_table@, current_addr) is None,
        },
{
    match get_arguments_instruction_type_instruction(line) {
        Ok((arguments, instruction_type, instruction)) => create_instruction(
            arguments,
            &instruction_type,
            instruction,
            symbol_table,
            current_addr,
        ),
        Err(e) => Err(e),
    }
}

/// The line without its comment and its label, or nothing when nothing
/// substantive remains.
pub open spec fn spec_remove_comment_and_label(s: Seq<char>) -> Option<Seq<char>> {
    match crate::assembler::parser::spec_remove_comment(s) {
        Some(t) => crate::assembler::parser::spec_remove_label(t),
        None => None,
    }
}

/// The line without its comment and its label, or nothing when nothing
/// substantive remains.
pub fn remove_comment_and_label(line: &str) -> (r: Option<String>)
    ensures
        match r {
            Some(t) => spec_remove_comment_and_label(line@) matches Some(u) && t@ == u,
            None => spec_remove_comment_and_label(line@) is None,
        },
{
    if let Some(l) = crate::assembler::parser::remove_comment_from_line(line) {
        if let Some(l2) = crate::assembler::parser::remove_label_from_line(l.as_str()) {
            return Some(l2);
        }
    }
    None
}

/// What parsing a full source line yields: the instruction, no instruction
/// (a blank, comment-only or label-only line), or nothing at all — an error
/// (an unsupported mnemonic, a malformed operand, an unknown label or an
/// out-of-range value).
pub open spec fn spec_parse_instruction(
    s: Seq<char>,
    table: Seq<(Seq<char>, u32)>,
    current_addr: u32,
) -> Option<Option<Instruction>> {
    match spec_remove_comment_and_label(s) {
        None => Some(None),
        Some(t) => if !crate::assembler::parser::spec_has_instruction(t) {
            Some(None)
        } else if spec_valid_mnemonic(spec_first_token(t)) {
            match spec_parse_nocl(t, table, current_addr) {
                Some(i) => Some(Some(i)),
                None => None,
            }
        } else {
            None
        },
    }
}

/// Parses the instruction on the given source line, using the symbol table of
/// pass 1 to resolve labels and the current instruction address for branch
/// offsets. A line that carries no instruction parses to nothing; a malformed
/// line is an error.
pub fn parse_instruction(
    line: String,
    symbol_table: &crate::assembler::first_pass::SymbolTable,
    current_addr: u32,
) -> (r: Result<Option<Instruction>, String>)
    ensures
        match r {
            Ok(o) => spec_parse_instruction(line@, symbol_table@, current_addr) == Some(o) && (
            o matches Some(i) ==> i.wf()),
            Err(_) => spec_parse_instruction(line@, symbol_table@, current_addr) is None,
        },
{
    if let Some(stripped) = remove_comment_and_label(line.as_str()) {
        if crate::assembler::parser::has_instruction(stripped.as_str()) {
            if contains_supported_instruction(stripped.as_str()) {
                return match parse_instruction_without_comment_label(
                    stripped.as_str(),
                    symbol_table,
                    current_addr,
                ) {
                    Ok(instr) => Ok(Some(instr)),
                    Err(e) => Err(e),
                };
            }
            let mut msg = String::from_str("Could not parse instruction from given line ");
            msg.append(stripped.as_str());
            return Err(msg);
        }
    }
    Ok(None)
}


// ---------------------------------------------------------------------------
// Textual renderings: hex, binary, bit fields and mnemonics.
// ---------------------------------------------------------------------------
/// An eight-hex-digit rendering of a 32-bit word, prefixed `0x`.
pub open spec fn spec_hex_word(w: u32) -> Seq<char> {
    seq!['0', 'x'] + crate::numfmt::spec_hex_pad(w as nat, 8)
}

/// An eight-hex-digit rendering of a 32-bit word, prefixed `0x`.
pub fn hex_word_string(w: u32) -> (r: String)
    ensures
        r@ == spec_hex_word(w),
{
    let mut s = String::new();
    crate::text::push_char(&mut s, '0');
    crate::text::push_char(&mut s, 'x');
    let digits = crate::numfmt::hex_string_pad(w as u64, 8);
    s.append(digits.as_str());
    proof {
        assert(s@ =~= spec_hex_word(w));
    }
    s
}

/// The 32-character binary rendering of a 32-bit word.
pub fn bin_word_string(w: u32) -> (r: String)
    ensures
        r@ == crate::numfmt::spec_bin_pad(w as nat, 32),
{
    crate::numfmt::bin_string_pad(w as u64, 32)
}

/// The characters of the binary rendering from bit `hi` down to bit `lo`
/// (bit 31 is the first character), or nothing when the bit range is invalid.
pub fn get_bits_of_word(w: u32, hi: usize, lo: usize) -> (r: Option<String>)
    ensures
        match r {
            Some(t) => lo <= hi <= 31 && t@ == crate::numfmt::spec_bin_pad(w as nat, 32).subrange(
                31 - hi,
                32 - lo,
            ),
            None => !(lo <= hi <= 31),
        },
{
    if lo <= hi && hi <= 31 {
        let b = bin_word_string(w);
        proof {
            crate::numfmt::lemma_bin_pad_len(w as nat, 32);
        }
        Some(b.as_str().substring_char(31 - hi, 32 - lo).to_owned())
    } else {
        None
    }
}

/// The mnemonic rendering of a register number known to be in range.
fn register_name_or_fail(n: u8) -> (r: String)
    requires
        n < 32,
    ensures
        Some(r@) == spec_register_name(n),
{
    match get_register_name(n) {
        Some(name) => name,
        None => {
            proof {
                assert(false);
            }
            String::new()
        },
    }
}

/// The mnemonic named by an opcode/funct pair known to be in the table.
fn operation_or_fail(op: u8, func: u8) -> (r: String)
    requires
        spec_operation(op, func) is Some,
    ensures
        Some(r@) == spec_operation(op, func),
{
    match get_operation(op, func) {
        Some(name) => name,
        None => {
            proof {
                assert(false);
            }
            String::new()
        },
    }
}

impl RTypeInstruction {
    /// The machine word as `0x` and eight hex digits.
    pub fn to_hex_string(&self) -> (r: String)
        requires
            self.wf(),
        ensures
            r@ == spec_hex_word(self.spec_encode()),
    {
        hex_word_string(self.encode())
    }

    /// The machine word as 32 binary digits.
    pub fn to_bin_string(&self) -> (r: String)
        requires
            self.wf(),
        ensures
            r@ == crate::numfmt::spec_bin_pad(self.spec_encode() as nat, 32),
    {
        bin_word_string(self.encode())
    }

    /// The characters of the binary rendering from bit `hi` down to bit `lo`.
    pub fn get_bits(&self, hi: usize, lo: usize) -> (r: Option<String>)
        requires
            self.wf(),
        ensures
            match r {
                Some(t) => lo <= hi <= 31 && t@ == crate::numfmt::spec_bin_pad(
                    self.spec_encode() as nat,
                    32,
                ).subrange(31 - hi, 32 - lo),
                None => !(lo <= hi <= 31),
            },
    {
        get_bits_of_word(self.encode(), hi, lo)
    }

    /// The assembly rendering: `op rd, rs, rt`.
    pub fn to_mnemonic_string(&self) -> (r: String)
        requires
            self.wf(),
        ensures
            r@ == spec_operation(0, self.func)->0 + " "@ + spec_register_name(self.rd)->0 + ", "@
                + spec_register_name(self.rs)->0 + ", "@ + spec_register_name(self.rt)->0,
    {
        let mut mnemonic = operation_or_fail(0, self.func);
        mnemonic.append(" ");
        let rd = register_name_or_fail(self.rd);
        mnemonic.append(rd.as_str());
        mnemonic.append(", ");
        let rs = register_name_or_fail(self.rs);
        mnemonic.append(rs.as_str());
        mnemonic.append(", ");
        let rt = register_name_or_fail(self.rt);
        mnemonic.append(rt.as_str());
        mnemonic
    }

    pub fn get_op(&self) -> (r: u8)
        ensures
            r == self.op,
    {
        self.op
    }

    pub fn get_rs(&self) -> (r: u8)
        ensures
            r == self.rs,
    {
        self.rs
    }

    pub fn get_rt(&self) -> (r: u8)
        ensures
            r == self.rt,
    {
        self.rt
    }

    pub fn get_rd(&self) -> (r: u8)
        ensures
            r == self.rd,
    {
        self.rd
    }

    pub fn get_shamt(&self) -> (r: u8)
        ensures
            r == self.shamt,
    {
        self.shamt
    }

    pub fn get_func(&self) -> (r: u8)
        ensures
            r == self.func,
    {
        self.func
    }
}

impl ITypeInstruction {
    /// The machine word as `0x` and eight hex digits.
    pub fn to_hex_string(&self) -> (r: String)
        requires
            self.wf(),
        ensures
            r@ == spec_hex_word(self.spec_encode()),
    {
        if self.op == OP_BEQ {
            return self.to_hex_string_beq();
        }
        hex_word_string(self.encode())
    }

    /// The machine word of a `beq`, its immediate field scaled to a word
    /// offset.
    pub fn to_hex_string_beq(&self) -> (r: String)
        requires
            self.wf(),
            self.op == OP_BEQ,
        ensures
            r@ == spec_hex_word(self.spec_encode()),
    {
        hex_word_string(self.encode())
    }

    /// The machine word as 32 binary digits.
    pub fn to_bin_string(&self) -> (r: String)
        requires
            self.wf(),
        ensures
            r@ == crate::numfmt::spec_bin_pad(self.spec_encode() as nat, 32),
    {
        bin_word_string(self.encode())
    }

    /// The characters of the binary rendering from bit `hi` down to bit `lo`.
    pub fn get_bits(&self, hi: usize, lo: usize) -> (r: Option<String>)
        requires
            self.wf(),
        ensures
            match r {
                Some(t) => lo <= hi <= 31 && t@ == crate::numfmt::spec_bin_pad(
                    self.spec_encode() as nat,
                    32,
                ).subrange(31 - hi, 32 - lo),
                None => !(lo <= hi <= 31),
            },
    {
        get_bits_of_word(self.encode(), hi, lo)
    }

    /// The assembly rendering: `op rt, rs, imm`.
    pub fn to_mnemonic_string(&self) -> (r: String)
        requires
            self.wf(),
        ensures
            r@ == spec_operation(self.op, 0)->0 + " "@ + spec_register_name(self.rt)->0 + ", "@
                + spec_register_name(self.rs)->0 + ", "@ + crate::numfmt::spec_dec_int(
                self.imm as int,
            ),
    {
        let mut mnemonic = operation_or_fail(self.op, 0);
        mnemonic.append(" ");
        let rt = register_name_or_fail(self.rt);
        mnemonic.append(rt.as_str());
        mnemonic.append(", ");
        let rs = register_name_or_fail(self.rs);
        mnemonic.append(rs.as_str());
        mnemonic.append(", ");
        let imm = crate::numfmt::dec_string_i64(self.imm as i64);
        mnemonic.append(imm.as_str());
        mnemonic
    }

    pub fn get_op(&self) -> (r: u8)
        ensures
            r == self.op,
    {
        self.op
    }

    pub fn get_rs(&self) -> (r: u8)
        ensures
            r == self.rs,
    {
        self.rs
    }

    pub fn get_rt(&self) -> (r: u8)
        ensures
            r == self.rt,
    {
        self.rt
    }

    pub fn get_imm(&self) -> (r: i16)
        ensures
            r == self.imm,
    {
        self.imm
    }
}

impl MemoryAccessTypeInstruction {
    /// The machine word as `0x` and eight hex digits.
    pub fn to_hex_string(&self) -> (r: String)
        requires
            self.wf(),
        ensures
            r@ == spec_hex_word(self.spec_encode()),
    {
        hex_word_string(self.encode())
    }

    /// The machine word as 32 binary digits.
    pub fn to_bin_string(&self) -> (r: String)
        requires
            self.wf(),
        ensures
            r@ == crate::numfmt::spec_bin_pad(self.spec_encode() as nat, 32),
    {
        bin_word_string(self.encode())
    }

    /// The assembly rendering: `op rt, offset(base)`.
    pub fn to_mnemonic_string(&self) -> (r: String)
        requires
            self.wf(),
        ensures
            r@ == spec_operation(self.op, 0)->0 + " "@ + spec_register_name(self.rt)->0 + ", "@
                + crate::numfmt::spec_dec_int(self.offset as int) + "("@ + spec_register_name(
                self.base,
            )->0 + ")"@,
    {
        let mut mnemonic = operation_or_fail(self.op, 0);
        mnemonic.append(" ");
        let rt = register_name_or_fail(self.rt);
        mnemonic.append(rt.as_str());
        mnemonic.append(", ");
        let offset = crate::numfmt::dec_string_i64(self.offset as i64);
        mnemonic.append(offset.as_str());
        mnemonic.append("(");
        let base = register_name_or_fail(self.base);
        mnemonic.append(base.as_str());
        mnemonic.append(")");
        mnemonic
    }
}

impl JTypeInstruction {
    /// The machine word as `0x` and eight hex digits.
    pub fn to_hex_string(&self) -> (r: String)
        requires
            self.wf(),
        ensures
            r@ == spec_hex_word(self.spec_encode()),
    {
        hex_word_string(self.encode())
    }

    /// The machine word as 32 binary digits.
    pub fn to_bin_string(&self) -> (r: String)
        requires
            self.wf(),
        ensures
            r@ == crate::numfmt::spec_bin_pad(self.spec_encode() as nat, 32),
    {
        bin_word_string(self.encode())
    }

    /// The characters of the binary rendering from bit `hi` down to bit `lo`.
    pub fn get_bits(&self, hi: usize, lo: usize) -> (r: Option<String>)
        requires
            self.wf(),
        ensures
            match r {
                Some(t) => lo <= hi <= 31 && t@ == crate::numfmt::spec_bin_pad(
                    self.spec_encode() as nat,
                    32,
                ).subrange(31 - hi, 32 - lo),
                None => !(lo <= hi <= 31),
            },
    {
        get_bits_of_word(self.encode(), hi, lo)
    }

    /// The assembly rendering: `j target` (the target in decimal, not as a
    /// label).
    pub fn to_mnemonic_string(&self) -> (r: String)
        requires
            self.wf(),
        ensures
            r@ == "j "@ + crate::numfmt::spec_dec_nat(self.addr as nat),
    {
        let mut mnemonic = String::from_str("j ");
        let target = crate::numfmt::dec_string_u64(self.addr as u64);
        mnemonic.append(target.as_str());
        mnemonic
    }

    pub fn get_op(&self) -> (r: u8)
        ensures
            r == self.op,
    {
        self.op
    }

    pub fn get_addr(&self) -> (r: u32)
        ensures
            r == self.addr,
    {
        self.addr
    }
}

impl JRTypeInstruction {
    /// The machine word as `0x` and eight hex digits.
    pub fn to_hex_string(&self) -> (r: String)
        requires
            self.wf(),
        ensures
            r@ == spec_hex_word(self.spec_encode()),
    {
        hex_word_string(self.encode())
    }

    /// The machine word as 32 binary digits.
    pub fn to_bin_string(&self) -> (r: String)
        requires
            self.wf(),
        ensures
            r@ == crate::numfmt::spec_bin_pad(self.spec_encode() as nat, 32),
    {
        bin_word_string(self.encode())
    }

    /// The assembly rendering: `jr rs`.
    pub fn to_mnemonic_string(&self) -> (r: String)
        requires
            self.wf(),
        ensures
            r@ == "jr "@ + spec_register_name(self.rs)->0,
    {
        let mut mnemonic = String::from_str("jr ");
        let reg = register_name_or_fail(self.rs);
        mnemonic.append(reg.as_str());
        mnemonic
    }
}

impl NopTypeInstruction {
    /// The all-zero word as `0x` and eight hex digits.
    pub fn to_hex_string(&self) -> (r: String)
        ensures
            r@ == spec_hex_word(0),
    {
        hex_word_string(0)
    }

    /// Thirty-two zero digits.
    pub fn to_bin_string(&self) -> (r: String)
        ensures
            r@ == crate::numfmt::spec_bin_pad(0, 32),
    {
        bin_word_string(0)
    }

    pub fn to_mnemonic_string(&self) -> (r: String)
        ensures
            r@ == "nop"@,
    {
        String::from_str("nop")
    }
}

impl TerminateInstruction {
    /// The all-ones word, rendered with upper-case hex digits.
    pub fn to_hex_string(&self) -> (r: String)
        ensures
            r@ == "0xFFFFFFFF"@,
    {
        String::from_str("0xFFFFFFFF")
    }

    /// Thirty-two one digits.
    pub fn to_bin_string(&self) -> (r: String)
        ensures
            r@ == crate::numfmt::spec_bin_pad(0xFFFF_FFFF, 32),
    {
        bin_word_string(0xFFFF_FFFF)
    }

    pub fn to_mnemonic_string(&self) -> (r: String)
        ensures
            r@ == "exit"@,
    {
        String::from_str("exit")
    }
}

/// The hex rendering of an instruction: `0x` and eight lower-case hex digits
/// of its machine word, except that the terminate sentinel is written with
/// upper-case digits.
pub open spec fn spec_hex_string(i: Instruction) -> Seq<char>
    recommends
        i.wf(),
{
    match i {
        Instruction::TerminateInstructionType(_) => "0xFFFFFFFF"@,
        _ => spec_hex_word(i.spec_encode()),
    }
}

impl Instruction {
    /// The machine word as `0x` and eight hex digits (upper-case for the
    /// terminate sentinel).
    pub fn to_hex_string(&self) -> (r: String)
        requires
            self.wf(),
        ensures
            r@ == spec_hex_string(*self),
    {
        match self {
            Instruction::RType(i) => i.to_hex_string(),
            Instruction::IType(i) => i.to_hex_string(),
            Instruction::JType(i) => i.to_hex_string(),
            Instruction::NopType(i) => i.to_hex_string(),
            Instruction::JRType(i) => i.to_hex_string(),
            Instruction::MemoryAccessType(i) => i.to_hex_string(),
            Instruction::TerminateInstructionType(i) => i.to_hex_string(),
        }
    }

    /// The machine word as 32 binary digits.
    pub fn to_bin_string(&self) -> (r: String)
        requires
            self.wf(),
        ensures
            r@ == crate::numfmt::spec_bin_pad(self.spec_encode() as nat, 32),
    {
        match self {
            Instruction::RType(i) => i.to_bin_string(),
            Instruction::IType(i) => i.to_bin_string(),
            Instruction::JType(i) => i.to_bin_string(),
            Instruction::NopType(i) => i.to_bin_string(),
            Instruction::JRType(i) => i.to_bin_string(),
            Instruction::MemoryAccessType(i) => i.to_bin_string(),
            Instruction::TerminateInstructionType(i) => i.to_bin_string(),
        }
    }

    /// The characters of the binary rendering from bit `hi` down to bit `lo`
    /// (bit 31 first), or nothing when the bit range is invalid.
    pub fn get_bits(&self, hi: usize, lo: usize) -> (r: Option<String>)
        requires
            self.wf(),
        ensures
            match r {
                Some(t) => lo <= hi <= 31 && t@ == crate::numfmt::spec_bin_pad(
                    self.spec_encode() as nat,
                    32,
                ).subrange(31 - hi, 32 - lo),
                None => !(lo <= hi <= 31),
            },
    {
        get_bits_of_word(self.encode(), hi, lo)
    }

    /// The opcode bits 31..26 of the binary rendering.
    pub fn get_op(&self) -> (r: String)
        requires
            self.wf(),
        ensures
            r@ == crate::numfmt::spec_bin_pad(self.spec_encode() as nat, 32).subrange(0, 6),
    {
        match self.get_bits(31, 26) {
            Some(t) => t,
            None => {
                proof {
                    assert(false);
                }
                String::new()
            },
        }
    }
}


/// The assembly rendering of an instruction.
pub open spec fn spec_mnemonic_string(i: Instruction) -> Seq<char>
    recommends
        i.wf(),
{
    match i {
        Instruction::RType(r) => spec_operation(0, r.func)->0 + " "@ + spec_register_name(r.rd)->0
            + ", "@ + spec_register_name(r.rs)->0 + ", "@ + spec_register_name(r.rt)->0,
        Instruction::IType(t) => spec_operation(t.op, 0)->0 + " "@ + spec_register_name(t.rt)->0
            + ", "@ + spec_register_name(t.rs)->0 + ", "@ + crate::numfmt::spec_dec_int(
            t.imm as int,
        ),
        Instruction::MemoryAccessType(m) => spec_operation(m.op, 0)->0 + " "@ + spec_register_name(
            m.rt,
        )->0 + ", "@ + crate::numfmt::spec_dec_int(m.offset as int) + "("@ + spec_register_name(
            m.base,
        )->0 + ")"@,
        Instruction::JType(j) => "j "@ + crate::numfmt::spec_dec_nat(j.addr as nat),
        Instruction::JRType(j) => "jr "@ + spec_register_name(j.rs)->0,
        Instruction::NopType(_) => "nop"@,
        Instruction::TerminateInstructionType(_) => "exit"@,
    }
}

impl Instruction {
    /// The assembly rendering of the instruction.
    pub fn to_mnemonic_string(&self) -> (r: String)
        requires
            self.wf(),
        ensures
            r@ == spec_mnemonic_string(*self),
    {
        match self {
            Instruction::RType(i) => i.to_mnemonic_string(),
            Instruction::IType(i) => i.to_mnemonic_string(),
            Instruction::JType(i) => i.to_mnemonic_string(),
            Instruction::NopType(i) => i.to_mnemonic_string(),
            Instruction::JRType(i) => i.to_mnemonic_string(),
            Instruction::MemoryAccessType(i) => i.to_mnemonic_string(),
            Instruction::TerminateInstructionType(i) => i.to_mnemonic_string(),
        }
    }

    /// The opcode as a number (63 for the terminate sentinel).
    pub fn get_op_val(&self) -> (r: i32)
        ensures
            r == match self {
                Instruction::RType(i) => i.op as i32,
                Instruction::IType(i) => i.op as i32,
                Instruction::JType(i) => i.op as i32,
                Instruction::NopType(_) => 0i32,
                Instruction::JRType(i) => i.op as i32,
                Instruction::MemoryAccessType(i) => i.op as i32,
                Instruction::TerminateInstructionType(_) => 63i32,
            },
    {
        match self {
            Instruction::RType(i) => i.op as i32,
            Instruction::IType(i) => i.op as i32,
            Instruction::JType(i) => i.op as i32,
            Instruction::NopType(_) => 0,
            Instruction::JRType(i) => i.op as i32,
            Instruction::MemoryAccessType(i) => i.op as i32,
            Instruction::TerminateInstructionType(_) => 63,
        }
    }

    /// The rs field (the base register, for memory access), where the form has
    /// one.
    pub fn get_rs_val(&self) -> (r: Option<i32>)
        ensures
            r == match self {
                Instruction::RType(i) => Some(i.rs as i32),
                Instruction::IType(i) => Some(i.rs as i32),
                Instruction::JType(_) => None::<i32>,
                Instruction::NopType(_) => Some(0i32),
                Instruction::JRType(i) => Some(i.rs as i32),
                Instruction::MemoryAccessType(i) => Some(i.base as i32),
                Instruction::TerminateInstructionType(_) => Some(31i32),
            },
    {
        match self {
            Instruction::RType(i) => Some(i.rs as i32),
            Instruction::IType(i) => Some(i.rs as i32),
            Instruction::JType(_) => None,
            Instruction::NopType(_) => Some(0),
            Instruction::JRType(i) => Some(i.rs as i32),
            Instruction::MemoryAccessType(i) => Some(i.base as i32),
            Instruction::TerminateInstructionType(_) => Some(31),
        }
    }

    /// The rt field, where the form has one.
    pub fn get_rt_val(&self) -> (r: Option<i32>)
        ensures
            r == match self {
                Instruction::RType(i) => Some(i.rt as i32),
                Instruction::IType(i) => Some(i.rt as i32),
                Instruction::JType(_) => None::<i32>,
                Instruction::NopType(_) => Some(0i32),
                Instruction::JRType(_) => None::<i32>,
                Instruction::MemoryAccessType(i) => Some(i.rt as i32),
                Instruction::TerminateInstructionType(_) => Some(31i32),
            },
    {
        match self {
            Instruction::RType(i) => Some(i.rt as i32),
            Instruction::IType(i) => Some(i.rt as i32),
            Instruction::JType(_) => None,
            Instruction::NopType(_) => Some(0),
            Instruction::JRType(_) => None,
            Instruction::MemoryAccessType(i) => Some(i.rt as i32),
            Instruction::TerminateInstructionType(_) => Some(31),
        }
    }

    /// The rd field, where the form has one.
    pub fn get_rd_val(&self) -> (r: Option<i32>)
        ensures
            r == match self {
                Instruction::RType(i) => Some(i.rd as i32),
                Instruction::IType(_) => None::<i32>,
                Instruction::JType(_) => None::<i32>,
                Instruction::NopType(_) => Some(0i32),
                Instruction::JRType(_) => None::<i32>,
                Instruction::MemoryAccessType(_) => None::<i32>,
                Instruction::TerminateInstructionType(_) => Some(31i32),
            },
    {
        match self {
            Instruction::RType(i) => Some(i.rd as i32),
            Instruction::IType(_) => None,
            Instruction::JType(_) => None,
            Instruction::NopType(_) => Some(0),
            Instruction::JRType(_) => None,
            Instruction::MemoryAccessType(_) => None,
            Instruction::TerminateInstructionType(_) => Some(31),
        }
    }

    /// The shift amount, where the form has one.
    pub fn get_shamt_val(&self) -> (r: Option<i32>)
        ensures
            r == match self {
                Instruction::RType(i) => Some(i.shamt as i32),
                Instruction::IType(_) => None::<i32>,
                Instruction::JType(_) => None::<i32>,
                Instruction::NopType(_) => Some(0i32),
                Instruction::JRType(_) => None::<i32>,
                Instruction::MemoryAccessType(_) => None::<i32>,
                Instruction::TerminateInstructionType(_) => Some(31i32),
            },
    {
        match self {
            Instruction::RType(i) => Some(i.shamt as i32),
            Instruction::IType(_) => None,
            Instruction::JType(_) => None,
            Instruction::NopType(_) => Some(0),
            Instruction::JRType(_) => None,
            Instruction::MemoryAccessType(_) => None,
            Instruction::TerminateInstructionType(_) => Some(31),
        }
    }

    /// The funct field, where the form has one.
    pub fn get_funct_val(&self) -> (r: Option<i32>)
        ensures
            r == match self {
                Instruction::RType(i) => Some(i.func as i32),
                Instruction::IType(_) => None::<i32>,
                Instruction::JType(_) => None::<i32>,
                Instruction::NopType(_) => Some(0i32),
                Instruction::JRType(_) => None::<i32>,
                Instruction::MemoryAccessType(_) => None::<i32>,
                Instruction::TerminateInstructionType(_) => Some(63i32),
            },
    {
        match self {
            Instruction::RType(i) => Some(i.func as i32),
            Instruction::IType(_) => None,
            Instruction::JType(_) => None,
            Instruction::NopType(_) => Some(0),
            Instruction::JRType(_) => None,
            Instruction::MemoryAccessType(_) => None,
            Instruction::TerminateInstructionType(_) => Some(63),
        }
    }

    /// The signed immediate (the byte offset, for `beq` and memory access),
    /// where the form has one.
    pub fn get_imm_val(&self) -> (r: Option<i32>)
        ensures
            r == match self {
                Instruction::RType(_) => None::<i32>,
                Instruction::IType(i) => Some(i.imm as i32),
                Instruction::JType(_) => None::<i32>,
                Instruction::NopType(_) => Some(0i32),
                Instruction::JRType(_) => None::<i32>,
                Instruction::MemoryAccessType(i) => Some(i.offset as i32),
                Instruction::TerminateInstructionType(_) => None::<i32>,
            },
    {
        match self {
            Instruction::RType(_) => None,
            Instruction::IType(i) => Some(i.imm as i32),
            Instruction::JType(_) => None,
            Instruction::NopType(_) => Some(0),
            Instruction::JRType(_) => None,
            Instruction::MemoryAccessType(i) => Some(i.offset as i32),
            Instruction::TerminateInstructionType(_) => None,
        }
    }

    /// The jump target as an unshifted byte address, where the form has one.
    pub fn get_jump_address_val(&self) -> (r: Option<i32>)
        requires
            self.wf(),
        ensures
            r == match self {
                Instruction::RType(_) => None::<i32>,
                Instruction::IType(_) => None::<i32>,
                Instruction::JType(i) => Some(i.addr as i32),
                Instruction::NopType(_) => Some(0i32),
                Instruction::JRType(_) => None::<i32>,
                Instruction::MemoryAccessType(_) => None::<i32>,
                Instruction::TerminateInstructionType(_) => None::<i32>,
            },
    {
        match self {
            Instruction::RType(_) => None,
            Instruction::IType(_) => None,
            Instruction::JType(i) => {
                proof {
                    assert(i.addr < PLACE_OP);
                }
                Some(i.addr as i32)
            },
            Instruction::NopType(_) => Some(0),
            Instruction::JRType(_) => None,
            Instruction::MemoryAccessType(_) => None,
            Instruction::TerminateInstructionType(_) => None,
        }
    }
}

} // verus!
