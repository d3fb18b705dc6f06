//! The two-pass assembler: pass 1 binds the labels, pass 2 encodes the
//! instructions against them.

use crate::assembler::first_pass::{build_symbol_table, spec_build_symbols};
use crate::assembler::second_pass::{
    parse_write_instructions, spec_label_rows, spec_pass2, AssemblyOutput,
};
use crate::mips::instruction_memory::MAX_INSTRUCTIONS;
use vstd::prelude::*;

verus! {

/// Assembles the source lines: pass 1 builds the symbol table, pass 2 encodes
/// each instruction against it. The result carries the encoded instructions in
/// program order, the instruction text and the listing text; the first
/// malformed line or label is a fatal error.
pub fn assemble(lines: &Vec<String>) -> (r: Result<AssemblyOutput, String>)
    requires
        lines@.len() <= MAX_INSTRUCTIONS,
    ensures
        match r {
            Ok(out) => {
                &&& spec_build_symbols(lines@.map_values(|l: String| l@), 0, 0, Seq::empty())
                    matches Some(table) && ({
                    &&& spec_pass2(
                        lines@.map_values(|l: String| l@),
                        table,
                        0,
                        0,
                        Seq::empty(),
                        Seq::empty(),
                        Seq::empty(),
                    ) matches Some((instrs, itext, ltext)) && out.instructions@ == instrs
                        && out.instruction_text@ == itext && out.listing_text@ == ltext + "\n"@
                        + "Symbols\n"@ + spec_label_rows(table)
                })
                &&& forall|k: int|
                    0 <= k < out.instructions@.len() ==> (#[trigger] out.instructions@[k]).wf()
                &&& out.instructions@.len() <= lines@.len()
            },
            Err(_) => ({
                ||| spec_build_symbols(lines@.map_values(|l: String| l@), 0, 0, Seq::empty())
                    is None
                ||| (spec_build_symbols(lines@.map_values(|l: String| l@), 0, 0, Seq::empty())
                    matches Some(table) && spec_pass2(
                    lines@.map_values(|l: String| l@),
                    table,
                    0,
                    0,
                    Seq::empty(),
                    Seq::empty(),
                    Seq::empty(),
                ) is None)
            }),
        },
{
    let table = match build_symbol_table(lines) {
        Ok(t) => t,
        Err(e) => {
            return Err(e);
        },
    };
    parse_write_instructions(lines, &table)
}

} // verus!
