//! The two-pass assembler: lexical helpers, instruction forms and encoders,
//! the symbol pass and the encoding pass.

pub mod assembler;
pub mod first_pass;
pub mod instructions;
pub mod parser;
pub mod second_pass;

pub use assembler::assemble;
