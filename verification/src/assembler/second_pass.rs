//! Pass 2 of the assembler: parse each line against the symbol table of pass
//! 1, emit the 8-hex-digit machine words in program order and a listing row
//! per source line, and append the symbol footer.

use crate::assembler::first_pass::SymbolTable;
use crate::assembler::instructions::{
    parse_instruction, spec_hex_string, spec_hex_word, spec_parse_instruction, Instruction,
};
use crate::mips::instruction_memory::MAX_INSTRUCTIONS;
use vstd::prelude::*;
use vstd::string::StringExecFns;

verus! {

/// One listing row: `<addr> <hex> <line>` with the fixed spacing of the
/// listing file.
pub open spec fn spec_listing_row(counter: Seq<char>, hex: Seq<char>, line: Seq<char>) -> Seq<
    char,
> {
    counter + "     "@ + hex + "                    "@ + line + "\n"@
}

/// Creates a row to be printed to the listing file.
pub fn generate_row_for_listings(counter: &str, hex: &str, line: &str) -> (r: String)
    ensures
        r@ == spec_listing_row(counter@, hex@, line@),
{
    let mut output_line = String::new();
    output_line.append(counter);
    output_line.append("     ");
    output_line.append(hex);
    output_line.append("                    ");
    output_line.append(line);
    output_line.append("\n");
    output_line
}

/// The symbol footer rows: each label followed by its address in hex, in
/// binding order.
pub open spec fn spec_label_rows(entries: Seq<(Seq<char>, u32)>) -> Seq<char>
    decreases entries.len(),
{
    if entries.len() == 0 {
        Seq::empty()
    } else {
        spec_label_rows(entries.drop_last()) + entries.last().0 + "     "@ + spec_hex_word(
            entries.last().1,
        ) + "          "@
    }
}

/// Generates the `Symbols` footer of the listing file.
pub fn generate_label_row(symbols: &SymbolTable) -> (r: String)
    ensures
        r@ == "Symbols\n"@ + spec_label_rows(symbols@),
{
    let mut output_line = String::from_str("Symbols\n");
    let entries = symbols.get_entries();
    let mut i: usize = 0;
    while i < entries.len()
        invariant
            i <= entries@.len(),
            entries@.map_values(|p: (String, u32)| (p.0@, p.1)) == symbols@,
            output_line@ == "Symbols\n"@ + spec_label_rows(symbols@.subrange(0, i as int)),
        decreases entries@.len() - i,
    {
        proof {
            assert(symbols@.subrange(0, i + 1).drop_last() =~= symbols@.subrange(0, i as int));
            assert(symbols@[i as int] == (entries@[i as int].0@, entries@[i as int].1));
        }
        output_line.append(entries[i].0.as_str());
        output_line.append("     ");
        let addr_text = crate::assembler::instructions::hex_word_string(entries[i].1);
        output_line.append(addr_text.as_str());
        output_line.append("          ");
        i = i + 1;
    }
    proof {
        assert(symbols@.subrange(0, symbols@.len() as int) =~= symbols@);
    }
    output_line
}

/// Parses one line and appends what it contributes: an instruction line adds
/// its hex word to the instruction text, a listing row with its address, and
/// advances the address by four; a line without an instruction adds a blank
/// listing row; a malformed line is an error and changes nothing.
pub fn append_to_output(
    line: String,
    symbol_table: &SymbolTable,
    addr_counter: &mut u32,
    output_line_instructions: &mut String,
    output_line_listing: &mut String,
) -> (r: Result<Option<Instruction>, String>)
    requires
        *old(addr_counter) + 4 <= u32::MAX,
    ensures
        match r {
            Ok(o) => {
                &&& Some(o) == spec_parse_instruction(line@, symbol_table@, *old(addr_counter))
                &&& match o {
                    Some(instr) => {
                        &&& instr.wf()
                        &&& *final(addr_counter) == *old(addr_counter) + 4
                        &&& final(output_line_instructions)@ == old(output_line_instructions)@
                            + spec_hex_string(instr) + "\n"@
                        &&& final(output_line_listing)@ == old(output_line_listing)@
                            + spec_listing_row(
                            spec_hex_word(*old(addr_counter)),
                            spec_hex_string(instr),
                            line@,
                        )
                    },
                    None => {
                        &&& *final(addr_counter) == *old(addr_counter)
                        &&& final(output_line_instructions)@ == old(output_line_instructions)@
                        &&& final(output_line_listing)@ == old(output_line_listing)@
                            + spec_listing_row("          "@, "          "@, line@)
                    },
                }
            },
            Err(_) => {
                &&& spec_parse_instruction(line@, symbol_table@, *old(addr_counter)) is None
                &&& *final(addr_counter) == *old(addr_counter)
                &&& final(output_line_instructions)@ == old(output_line_instructions)@
                &&& final(output_line_listing)@ == old(output_line_listing)@
            },
        },
{
    let full_line = line.clone();
    let maybe_instruction = match parse_instruction(line, symbol_table, *addr_counter) {
        Ok(o) => o,
        Err(e) => {
            return Err(e);
        },
    };
    match maybe_instruction {
        Some(ref instruction) => {
            let hex_str = instruction.to_hex_string();
            output_line_instructions.append(hex_str.as_str());
            output_line_instructions.append("\n");
            let addr_counter_str = crate::assembler::instructions::hex_word_string(*addr_counter);
            let row = generate_row_for_listings(
                addr_counter_str.as_str(),
                hex_str.as_str(),
                full_line.as_str(),
            );
            output_line_listing.append(row.as_str());
            *addr_counter = *addr_counter + 4;
        },
        None => {
            let row = generate_row_for_listings("          ", "          ", full_line.as_str());
            output_line_listing.append(row.as_str());
        },
    }
    Ok(maybe_instruction)
}

/// What the assembler emits: the encoded instructions in program order, the
/// instruction text (one hex word per line) and the listing text.
pub struct AssemblyOutput {
    pub instructions: Vec<Instruction>,
    pub instruction_text: String,
    pub listing_text: String,
}

/// What pass 2 accumulates walking the lines from index `i` at instruction
/// address `addr`: the instruction list, the instruction text and the listing
/// rows. Nothing on the first malformed line.
pub open spec fn spec_pass2(
    lines: Seq<Seq<char>>,
    table: Seq<(Seq<char>, u32)>,
    i: int,
    addr: u32,
    instrs: Seq<Instruction>,
    itext: Seq<char>,
    ltext: Seq<char>,
) -> Option<(Seq<Instruction>, Seq<char>, Seq<char>)>
    decreases lines.len() - i,
{
    if i < 0 || i >= lines.len() || addr + 4 > u32::MAX {
        Some((instrs, itext, ltext))
    } else {
        match spec_parse_instruction(lines[i], table, addr) {
            None => None,
            Some(None) => spec_pass2(
                lines,
                table,
                i + 1,
                addr,
                instrs,
                itext,
                ltext + spec_listing_row("          "@, "          "@, lines[i]),
            ),
            Some(Some(instr)) => spec_pass2(
                lines,
                table,
                i + 1,
                (addr + 4) as u32,
                instrs.push(instr),
                itext + spec_hex_string(instr) + "\n"@,
                ltext + spec_listing_row(spec_hex_word(addr), spec_hex_string(instr), lines[i]),
            ),
        }
    }
}

/// Pass 2: parses every line against the symbol table and returns the encoded
/// instructions, the instruction text and the listing text (rows, a blank
/// line, then the symbol footer). The first malformed line is a fatal error.
pub fn parse_write_instructions(lines: &Vec<String>, symbol_table: &SymbolTable) -> (r: Result<
    AssemblyOutput,
    String,
>)
    requires
        lines@.len() <= MAX_INSTRUCTIONS,
    ensures
        match r {
            Ok(out) => {
                &&& spec_pass2(
                    lines@.map_values(|l: String| l@),
                    symbol_table@,
                    0,
                    0,
                    Seq::empty(),
                    Seq::empty(),
                    Seq::empty(),
                ) matches Some((instrs, itext, ltext)) && out.instructions@ == instrs
                    && out.instruction_text@ == itext && out.listing_text@ == ltext + "\n"@
                    + "Symbols\n"@ + spec_label_rows(symbol_table@)
                &&& forall|k: int|
                    0 <= k < out.instructions@.len() ==> (#[trigger] out.instructions@[k]).wf()
                &&& out.instructions@.len() <= lines@.len()
            },
            Err(_) => spec_pass2(
                lines@.map_values(|l: String| l@),
                symbol_table@,
                0,
                0,
                Seq::empty(),
                Seq::empty(),
                Seq::empty(),
            ) is None,
        },
{
    let ghost lviews = lines@.map_values(|l: String| l@);
    let mut addr_counter: u32 = 0;
    let mut output_line_listing = String::new();
    let mut output_line_instructions = String::new();
    let mut instr_list: Vec<Instruction> = Vec::new();
    let mut i: usize = 0;
    while i < lines.len()
        invariant
            i <= lines@.len(),
            lines@.len() <= MAX_INSTRUCTIONS,
            lviews == lines@.map_values(|l: String| l@),
            addr_counter as int == 4 * instr_list@.len(),
            instr_list@.len() <= i,
            forall|k: int| 0 <= k < instr_list@.len() ==> (#[trigger] instr_list@[k]).wf(),
            spec_pass2(lviews, symbol_table@, 0, 0, Seq::empty(), Seq::empty(), Seq::empty())
                == spec_pass2(
                lviews,
                symbol_table@,
                i as int,
                addr_counter,
                instr_list@,
                output_line_instructions@,
                output_line_listing@,
            ),
        decreases lines@.len() - i,
    {
        proof {
            assert(lviews[i as int] == lines@[i as int]@);
        }
        let line = lines[i].clone();
        let res = append_to_output(
            line,
            symbol_table,
            &mut addr_counter,
            &mut output_line_instructions,
            &mut output_line_listing,
        );
        match res {
            Err(err) => {
                return Err(err);
            },
            Ok(Some(instr)) => {
                instr_list.push(instr);
            },
            Ok(None) => {},
        }
        i = i + 1;
    }
    output_line_listing.append("\n");
    let footer = generate_label_row(symbol_table);
    output_line_listing.append(footer.as_str());
    Ok(
        AssemblyOutput {
            instructions: instr_list,
            instruction_text: output_line_instructions,
            listing_text: output_line_listing,
        },
    )
}

} // verus!
