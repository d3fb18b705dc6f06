//! Pass 1 of the assembler: walk the source lines in order, bind each label to
//! the byte address of the next instruction, and reject duplicate or
//! whitespace-bearing labels.

use crate::assembler::parser::{spec_get_label, spec_has_instruction, spec_remove_comment};
use crate::mips::instruction_memory::MAX_INSTRUCTIONS;
use crate::text::is_blank;
use vstd::prelude::*;
use vstd::string::StringExecFns;

verus! {

/// The label-to-address mapping of pass 1, in binding order.
pub struct SymbolTable {
    entries: Vec<(String, u32)>,
}

impl View for SymbolTable {
    type V = Seq<(Seq<char>, u32)>;

    closed spec fn view(&self) -> Seq<(Seq<char>, u32)> {
        self.entries@.map_values(|p: (String, u32)| (p.0@, p.1))
    }
}

/// The address bound to the first entry with the key, or nothing.
pub open spec fn spec_lookup(entries: Seq<(Seq<char>, u32)>, key: Seq<char>) -> Option<u32>
    decreases entries.len(),
{
    if entries.len() == 0 {
        None
    } else if entries[0].0 == key {
        Some(entries[0].1)
    } else {
        spec_lookup(entries.drop_first(), key)
    }
}

/// Scanning past entries whose keys all differ from the key does not change
/// the lookup.
proof fn lemma_lookup_skip(entries: Seq<(Seq<char>, u32)>, key: Seq<char>, i: int)
    requires
        0 <= i <= entries.len(),
        forall|j: int| 0 <= j < i ==> (#[trigger] entries[j]).0 != key,
    ensures
        spec_lookup(entries, key) == spec_lookup(entries.skip(i), key),
    decreases i,
{
    if i > 0 {
        lemma_lookup_skip(entries, key, i - 1);
        let tail = entries.skip(i - 1);
        assert(tail[0] == entries[i - 1]);
        assert(tail.drop_first() =~= entries.skip(i));
    } else {
        assert(entries.skip(0) =~= entries);
    }
}

/// A lookup that finds nothing means no entry carries the key.
proof fn lemma_lookup_none_absent(entries: Seq<(Seq<char>, u32)>, key: Seq<char>)
    requires
        spec_lookup(entries, key) is None,
    ensures
        forall|j: int| 0 <= j < entries.len() ==> (#[trigger] entries[j]).0 != key,
    decreases entries.len(),
{
    if entries.len() > 0 {
        lemma_lookup_none_absent(entries.drop_first(), key);
        assert forall|j: int| 0 <= j < entries.len() implies (#[trigger] entries[j]).0 != key by {
            if j > 0 {
                assert(entries.drop_first()[j - 1] == entries[j]);
            }
        }
    }
}

impl SymbolTable {
    /// No two entries bind the same label.
    pub open spec fn keys_unique(&self) -> bool {
        forall|i: int, j: int|
            0 <= i < j < self@.len() ==> (#[trigger] self@[i]).0 != (#[trigger] self@[j]).0
    }

    pub fn new() -> (r: SymbolTable)
        ensures
            r@ =~= Seq::<(Seq<char>, u32)>::empty(),
    {
        SymbolTable { entries: Vec::new() }
    }

    /// Binds the label to the address; the label must be new.
    pub fn insert(&mut self, label: String, addr: u32)
        requires
            spec_lookup(old(self)@, label@) is None,
        ensures
            final(self)@ == old(self)@.push((label@, addr)),
    {
        self.entries.push((label, addr));
        proof {
            assert(self@ =~= old(self)@.push((label@, addr)));
        }
    }

    /// The address bound to the label, or nothing.
    pub fn get(&self, label: &str) -> (r: Option<u32>)
        ensures
            r == spec_lookup(self@, label@),
    {
        let mut i: usize = 0;
        while i < self.entries.len()
            invariant
                i <= self@.len(),
                self@.len() == self.entries@.len(),
                forall|j: int| 0 <= j < i ==> (#[trigger] self@[j]).0 != label@,
            decreases self@.len() - i,
        {
            proof {
                assert(self@[i as int] == (self.entries@[i as int].0@, self.entries@[i as int].1));
            }
            if crate::text::str_eq(self.entries[i].0.as_str(), label) {
                proof {
                    lemma_lookup_skip(self@, label@, i as int);
                    assert(self@.skip(i as int)[0] == self@[i as int]);
                }
                return Some(self.entries[i].1);
            }
            i = i + 1;
        }
        proof {
            lemma_lookup_skip(self@, label@, i as int);
            assert(self@.skip(i as int) =~= Seq::<(Seq<char>, u32)>::empty());
        }
        None
    }

    /// The label has a binding.
    pub fn contains_key(&self, label: &str) -> (r: bool)
        ensures
            r == (spec_lookup(self@, label@) is Some),
    {
        self.get(label).is_some()
    }

    /// The entries in binding order.
    pub fn get_entries(&self) -> (r: &Vec<(String, u32)>)
        ensures
            r@.map_values(|p: (String, u32)| (p.0@, p.1)) == self@,
    {
        &self.entries
    }
}

/// The label has a whitespace character in it.
pub open spec fn spec_label_has_space(s: Seq<char>) -> bool {
    exists|i: int| 0 <= i < s.len() && crate::text::is_space(s[i])
}

fn label_has_space(s: &str) -> (r: bool)
    ensures
        r == spec_label_has_space(s@),
{
    let len = vstd::string::StrSliceExecFns::unicode_len(s);
    let mut i: usize = 0;
    while i < len
        invariant
            i <= len,
            len == s@.len(),
            forall|j: int| 0 <= j < i ==> !crate::text::is_space(s@[j]),
        decreases len - i,
    {
        if crate::text::space_char(vstd::string::StrSliceExecFns::get_char(s, i)) {
            return true;
        }
        i = i + 1;
    }
    false
}

/// The symbol table that pass 1 builds, walking the lines from index `i` with
/// the next instruction address `next_addr` and the bindings `acc` so far:
/// blank and comment-only lines are skipped; a label binds to `next_addr`
/// unless it holds whitespace or is already bound (both fatal: no table); a
/// line that still holds an instruction advances `next_addr` by four.
pub open spec fn spec_build_symbols(
    lines: Seq<Seq<char>>,
    i: int,
    next_addr: int,
    acc: Seq<(Seq<char>, u32)>,
) -> Option<Seq<(Seq<char>, u32)>>
    decreases lines.len() - i,
{
    if i < 0 || i >= lines.len() {
        Some(acc)
    } else {
        let line = lines[i];
        if is_blank(line) {
            spec_build_symbols(lines, i + 1, next_addr, acc)
        } else {
            match spec_remove_comment(line) {
                None => spec_build_symbols(lines, i + 1, next_addr, acc),
                Some(l) => {
                    let acc2 = match spec_get_label(l) {
                        Some(label) => if spec_label_has_space(label) || spec_lookup(acc, label)
                            is Some {
                            None
                        } else {
                            Some(acc.push((label, next_addr as u32)))
                        },
                        None => Some(acc),
                    };
                    match acc2 {
                        None => None,
                        Some(acc3) => {
                            let next2 = if spec_has_instruction(l) {
                                next_addr + 4
                            } else {
                                next_addr
                            };
                            spec_build_symbols(lines, i + 1, next2, acc3)
                        },
                    }
                },
            }
        }
    }
}

/// Builds the symbol table of the source: each label is bound to the byte
/// address of the next instruction-bearing line (addresses run 0, 4, 8, ...).
/// Labels bound in source order have non-decreasing addresses, each a multiple
/// of four, and no label is bound twice. A duplicate label or one holding
/// whitespace is a fatal error.
pub fn build_symbol_table(lines: &Vec<String>) -> (r: Result<SymbolTable, String>)
    requires
        lines@.len() <= MAX_INSTRUCTIONS,
    ensures
        match r {
            Ok(t) => {
                &&& Some(t@) == spec_build_symbols(
                    lines@.map_values(|l: String| l@),
                    0,
                    0,
                    Seq::empty(),
                )
                &&& t.keys_unique()
                &&& forall|i: int, j: int|
                    0 <= i <= j < t@.len() ==> (#[trigger] t@[i]).1 <= (#[trigger] t@[j]).1
                &&& forall|i: int| 0 <= i < t@.len() ==> (#[trigger] t@[i]).1 % 4 == 0
            },
            Err(_) => spec_build_symbols(lines@.map_values(|l: String| l@), 0, 0, Seq::empty())
                is None,
        },
{
    let ghost lviews = lines@.map_values(|l: String| l@);
    let mut table = SymbolTable::new();
    let mut next_instruction: u32 = 0;
    let mut i: usize = 0;
    while i < lines.len()
        invariant
            i <= lines@.len(),
            lines@.len() <= MAX_INSTRUCTIONS,
            lviews == lines@.map_values(|l: String| l@),
            next_instruction <= 4 * i,
            spec_build_symbols(lviews, 0, 0, Seq::empty()) == spec_build_symbols(
                lviews,
                i as int,
                next_instruction as int,
                table@,
            ),
            table.keys_unique(),
            forall|p: int, q: int|
                0 <= p <= q < table@.len() ==> (#[trigger] table@[p]).1 <= (#[trigger] table@[q]).1,
            forall|p: int| 0 <= p < table@.len() ==> (#[trigger] table@[p]).1 % 4 == 0,
            forall|p: int| 0 <= p < table@.len() ==> (#[trigger] table@[p]).1 <= next_instruction,
            next_instruction % 4 == 0,
        decreases lines@.len() - i,
    {
        proof {
            assert(lviews[i as int] == lines@[i as int]@);
        }
        let line: &str = lines[i].as_str();
        if crate::assembler::parser::line_is_empty(line) {
            i = i + 1;
            continue ;
        }
        let without_comment = match crate::assembler::parser::remove_comment_from_line(line) {
            None => {
                i = i + 1;
                continue ;
            },
            Some(l) => l,
        };
        if let Some(label) = crate::assembler::parser::get_label_from_line(
            without_comment.as_str(),
        ) {
            if label_has_space(label.as_str()) {
                return Err(String::from_str("Found whitespace in label!"));
            }
            if table.contains_key(label.as_str()) {
                let mut msg = String::from_str("Label ");
                msg.append(label.as_str());
                msg.append(" is defined more than once in the given input file!");
                return Err(msg);
            }
            proof {
                lemma_lookup_none_absent(table@, label@);
            }
            table.insert(label, next_instruction);
        }
        if crate::assembler::parser::has_instruction(without_comment.as_str()) {
            next_instruction = next_instruction + 4;
        }
        i = i + 1;
    }
    Ok(table)
}

} // verus!
