//! Lexical helpers for one line of assembly: stripping the `#` comment and the
//! `label:` prefix, and testing what remains.

use crate::text::{
    blank_str, find, find_char, find_char_from, find_from, is_blank, is_space, lemma_blank_trim,
    lemma_find_from_props, spec_trim, trim_str,
};
use vstd::prelude::*;
use vstd::string::{StrSliceExecFns, StringExecFns};

verus! {

/// The text before the first `#`, or the whole line without one.
pub open spec fn spec_before_comment(s: Seq<char>) -> Seq<char> {
    s.subrange(0, find(s, '#'))
}

/// The line without its comment: the text before the first `#`, or nothing
/// when only whitespace would remain.
pub open spec fn spec_remove_comment(s: Seq<char>) -> Option<Seq<char>> {
    let b = spec_before_comment(s);
    if is_blank(b) {
        None
    } else {
        Some(b)
    }
}

/// The comment of the line: a `#` followed by the text between the first `#`
/// and the next one or the end, or nothing when the line has no `#`.
pub open spec fn spec_get_comment(s: Seq<char>) -> Option<Seq<char>> {
    let j = find(s, '#');
    if j == s.len() {
        None
    } else {
        Some(seq!['#'] + s.subrange(j + 1, find_from(s, '#', j + 1)))
    }
}

/// The label of the line: the text before the first `:`, or nothing when the
/// line has no `:` or a `#` comes before it.
pub open spec fn spec_get_label(s: Seq<char>) -> Option<Seq<char>> {
    let j = find(s, ':');
    if j == s.len() || find(s, '#') < j {
        None
    } else {
        Some(s.subrange(0, j))
    }
}

/// The line without its label: the text after the first `:` when one is
/// present (nothing, when only whitespace follows it), else the whole line.
pub open spec fn spec_remove_label(s: Seq<char>) -> Option<Seq<char>> {
    let j = find(s, ':');
    if j == s.len() {
        Some(s)
    } else {
        let rest = s.subrange(j + 1, s.len() as int);
        if is_blank(rest) {
            None
        } else {
            Some(rest)
        }
    }
}

/// Removing the comment and the label leaves non-whitespace text.
pub open spec fn spec_has_instruction(s: Seq<char>) -> bool {
    match spec_remove_comment(s) {
        None => false,
        Some(t) => match spec_remove_label(t) {
            None => false,
            Some(u) => !is_blank(u),
        },
    }
}

/// The instruction text of the line: comment and label removed and the rest
/// trimmed, or nothing when no instruction text remains.
pub open spec fn spec_mnemonic_arguments(s: Seq<char>) -> Option<Seq<char>> {
    match spec_remove_comment(s) {
        None => None,
        Some(t) => match spec_remove_label(t) {
            None => None,
            Some(u) => if spec_trim(u).len() > 0 {
                Some(spec_trim(u))
            } else {
                None
            },
        },
    }
}

/// The line starts with a whitespace character.
pub fn begins_with_space(instruction: &str) -> (r: bool)
    ensures
        r == (instruction@.len() > 0 && is_space(instruction@[0])),
{
    if instruction.unicode_len() == 0 {
        return false;
    }
    crate::text::space_char(instruction.get_char(0))
}

/// The line is empty or all whitespace.
pub fn line_is_empty(line: &str) -> (r: bool)
    ensures
        r == is_blank(line@),
{
    blank_str(line)
}

/// The line without its comment, or nothing when only whitespace would remain.
pub fn remove_comment_from_line(line: &str) -> (r: Option<String>)
    ensures
        match r {
            Some(t) => spec_remove_comment(line@) matches Some(u) && t@ == u,
            None => spec_remove_comment(line@) is None,
        },
{
    let j = find_char(line, '#');
    proof {
        lemma_find_from_props(line@, '#', 0);
    }
    let b = line.substring_char(0, j);
    if blank_str(b) {
        return None;
    }
    Some(b.to_owned())
}

/// The comment of the line, `#` included, or nothing when the line has none.
pub fn get_comment_from_line(line: &str) -> (r: Option<String>)
    ensures
        match r {
            Some(t) => spec_get_comment(line@) matches Some(u) && t@ == u,
            None => spec_get_comment(line@) is None,
        },
{
    let len = line.unicode_len();
    let j = find_char(line, '#');
    proof {
        lemma_find_from_props(line@, '#', 0);
    }
    if j == len {
        return None;
    }
    let k = find_char_from(line, '#', j + 1);
    proof {
        lemma_find_from_props(line@, '#', j + 1);
    }
    let mut comment = String::new();
    crate::text::push_char(&mut comment, '#');
    comment.append(line.substring_char(j + 1, k));
    proof {
        assert(comment@ =~= seq!['#'] + line@.subrange(j + 1, k as int));
    }
    Some(comment)
}

/// The label of the line, or nothing when it has none.
pub fn get_label_from_line(line: &str) -> (r: Option<String>)
    ensures
        match r {
            Some(t) => spec_get_label(line@) matches Some(u) && t@ == u,
            None => spec_get_label(line@) is None,
        },
{
    let len = line.unicode_len();
    let j = find_char(line, ':');
    proof {
        lemma_find_from_props(line@, ':', 0);
        lemma_find_from_props(line@, '#', 0);
    }
    if j == len {
        return None;
    }
    let h = find_char(line, '#');
    if h < j {
        return None;
    }
    Some(line.substring_char(0, j).to_owned())
}

/// The line without its label, or nothing when only whitespace follows it.
pub fn remove_label_from_line(line: &str) -> (r: Option<String>)
    ensures
        match r {
            Some(t) => spec_remove_label(line@) matches Some(u) && t@ == u,
            None => spec_remove_label(line@) is None,
        },
{
    let len = line.unicode_len();
    let j = find_char(line, ':');
    proof {
        lemma_find_from_props(line@, ':', 0);
    }
    if j == len {
        return Some(line.to_owned());
    }
    let rest = line.substring_char(j + 1, len);
    if blank_str(rest) {
        return None;
    }
    Some(rest.to_owned())
}

/// Removing the comment and the label leaves non-whitespace text.
pub fn has_instruction(line: &str) -> (r: bool)
    ensures
        r == spec_has_instruction(line@),
{
    match remove_comment_from_line(line) {
        None => false,
        Some(t) => match remove_label_from_line(t.as_str()) {
            None => false,
            Some(u) => !blank_str(u.as_str()),
        },
    }
}

/// The instruction text of the line, trimmed, or nothing when none remains.
pub fn extract_mnemonic_arguments_from_line(line: &str) -> (r: Option<String>)
    ensures
        match r {
            Some(t) => spec_mnemonic_arguments(line@) matches Some(u) && t@ == u,
            None => spec_mnemonic_arguments(line@) is None,
        },
{
    let without_comment = match remove_comment_from_line(line) {
        Some(t) => t,
        None => {
            return None;
        },
    };
    let only_instr = match remove_label_from_line(without_comment.as_str()) {
        Some(u) => u,
        None => {
            return None;
        },
    };
    let trimmed = trim_str(only_instr.as_str());
    if trimmed.unicode_len() > 0 {
        return Some(trimmed.to_owned());
    }
    None
}

/// Removes the leading space of an instruction line: everything after the
/// first character, which must be a space (any other start is an error naming
/// the line).
pub fn trim_instruction_string(instruction: &str) -> (r: Result<String, String>)
    requires
        instruction@.len() > 0 && is_space(instruction@[0]) ==> instruction@[0] == ' ',
    ensures
        match r {
            Ok(t) => instruction@.len() > 0 && instruction@[0] == ' ' && t@ == instruction@.subrange(
                1,
                instruction@.len() as int,
            ),
            Err(m) => !(instruction@.len() > 0 && is_space(instruction@[0])) && m@ == instruction@
                + " does not start with blank space"@,
        },
{
    if !begins_with_space(instruction) {
        let mut msg = instruction.to_owned();
        msg.append(" does not start with blank space");
        return Err(msg);
    }
    let len = instruction.unicode_len();
    Ok(instruction.substring_char(1, len).to_owned())
}

} // verus!
