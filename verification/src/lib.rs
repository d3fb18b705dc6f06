//! A two-pass MIPS assembler and a single-cycle MIPS datapath simulator for an
//! educational subset of the MIPS32 instruction set.
//!
//! The assembler (`assembler`) turns lines of assembly text into 32-bit
//! machine words: pass 1 binds each label to a byte address, pass 2 parses and
//! encodes each instruction against those bindings. The simulator (`mips`)
//! executes the encoded program against a model of the processor — register
//! file, data memory, ALU, control unit and program counter — one instruction
//! per step.
//!
//! `text` and `numfmt` hold the verified string scanning and number
//! formatting/parsing that both halves build on; `word` holds the
//! two's-complement conversions and shifts of the ALU; `valwriter` renders
//! values for the state viewer.

pub mod assembler;
pub mod mips;
pub mod numfmt;
pub mod text;
pub mod valwriter;
pub mod word;
