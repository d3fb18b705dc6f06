//! Character and string scanning used by the assembler: whitespace tests,
//! first-occurrence search, trimming and splitting, all specified over
//! `Seq<char>` views.

use vstd::prelude::*;
use vstd::string::StrSliceExecFns;

verus! {

/// ASCII whitespace: space, tab, line feed, carriage return, vertical tab and
/// form feed.
pub open spec fn is_space(c: char) -> bool {
    c == ' ' || c == '\t' || c == '\n' || c == '\r' || c == '\u{b}' || c == '\u{c}'
}

pub fn space_char(c: char) -> (r: bool)
    ensures
        r == is_space(c),
{
    c == ' ' || c == '\t' || c == '\n' || c == '\r' || c == '\u{b}' || c == '\u{c}'
}

/// Every character of the string is whitespace.
pub open spec fn is_blank(s: Seq<char>) -> bool {
    forall|i: int| 0 <= i < s.len() ==> is_space(s[i])
}

/// The first index at or after `i` whose character is `c`, or the length.
pub open spec fn find_from(s: Seq<char>, c: char, i: int) -> int
    decreases s.len() - i,
{
    if i < 0 || i >= s.len() {
        s.len() as int
    } else if s[i] == c {
        i
    } else {
        find_from(s, c, i + 1)
    }
}

/// The index of the first occurrence of `c`, or the length.
pub open spec fn find(s: Seq<char>, c: char) -> int {
    find_from(s, c, 0)
}

pub proof fn lemma_find_from_props(s: Seq<char>, c: char, i: int)
    requires
        0 <= i <= s.len(),
    ensures
        i <= find_from(s, c, i) <= s.len(),
        forall|j: int| i <= j < find_from(s, c, i) ==> s[j] != c,
        find_from(s, c, i) < s.len() ==> s[find_from(s, c, i)] == c,
    decreases s.len() - i,
{
    if i < s.len() && s[i] != c {
        lemma_find_from_props(s, c, i + 1);
    }
}

/// The characterization is complete: a scan that saw no `c` before `j` and
/// either `c` at `j` or the end there has found the first occurrence.
pub proof fn lemma_find_from_unique(s: Seq<char>, c: char, i: int, j: int)
    requires
        0 <= i <= j <= s.len(),
        forall|k: int| i <= k < j ==> s[k] != c,
        j == s.len() || s[j] == c,
    ensures
        find_from(s, c, i) == j,
    decreases j - i,
{
    if i < j {
        lemma_find_from_unique(s, c, i + 1, j);
    }
}

/// Searching a suffix is searching from its start.
pub proof fn lemma_find_subrange(s: Seq<char>, c: char, pos: int)
    requires
        0 <= pos <= s.len(),
    ensures
        find(s.subrange(pos, s.len() as int), c) == find_from(s, c, pos) - pos,
{
    let sub = s.subrange(pos, s.len() as int);
    lemma_find_from_props(s, c, pos);
    let j = find_from(s, c, pos);
    assert(forall|k: int| 0 <= k < j - pos ==> sub[k] != c);
    lemma_find_from_unique(sub, c, 0, j - pos);
}

/// The index of the first occurrence of `c` at or after `from`, or the length.
pub fn find_char_from(s: &str, c: char, from: usize) -> (r: usize)
    requires
        from <= s@.len(),
    ensures
        r == find_from(s@, c, from as int),
{
    let len = s.unicode_len();
    let mut i = from;
    while i < len
        invariant
            from <= i <= len,
            len == s@.len(),
            forall|k: int| from <= k < i ==> s@[k] != c,
        decreases len - i,
    {
        if s.get_char(i) == c {
            proof {
                lemma_find_from_unique(s@, c, from as int, i as int);
            }
            return i;
        }
        i = i + 1;
    }
    proof {
        lemma_find_from_unique(s@, c, from as int, len as int);
    }
    len
}

/// The index of the first occurrence of `c`, or the length.
pub fn find_char(s: &str, c: char) -> (r: usize)
    ensures
        r == find(s@, c),
{
    find_char_from(s, c, 0)
}

/// The first index at or after `i` whose character is not whitespace, or the
/// length.
pub open spec fn skip_spaces(s: Seq<char>, i: int) -> int
    decreases s.len() - i,
{
    if i < 0 || i >= s.len() {
        s.len() as int
    } else if is_space(s[i]) {
        skip_spaces(s, i + 1)
    } else {
        i
    }
}

/// One past the last non-whitespace index below `i`, or 0.
pub open spec fn trim_end_idx(s: Seq<char>, i: int) -> int
    decreases i,
{
    if i <= 0 {
        0
    } else if is_space(s[i - 1]) {
        trim_end_idx(s, i - 1)
    } else {
        i
    }
}

/// The string without leading and trailing whitespace.
pub open spec fn spec_trim(s: Seq<char>) -> Seq<char> {
    let a = skip_spaces(s, 0);
    let b = trim_end_idx(s, s.len() as int);
    if a >= b {
        Seq::empty()
    } else {
        s.subrange(a, b)
    }
}

pub proof fn lemma_skip_spaces_props(s: Seq<char>, i: int)
    requires
        0 <= i <= s.len(),
    ensures
        i <= skip_spaces(s, i) <= s.len(),
        forall|j: int| i <= j < skip_spaces(s, i) ==> is_space(s[j]),
        skip_spaces(s, i) < s.len() ==> !is_space(s[skip_spaces(s, i)]),
    decreases s.len() - i,
{
    if i < s.len() && is_space(s[i]) {
        lemma_skip_spaces_props(s, i + 1);
    }
}

pub proof fn lemma_skip_spaces_unique(s: Seq<char>, i: int, j: int)
    requires
        0 <= i <= j <= s.len(),
        forall|k: int| i <= k < j ==> is_space(s[k]),
        j == s.len() || !is_space(s[j]),
    ensures
        skip_spaces(s, i) == j,
    decreases j - i,
{
    if i < j {
        lemma_skip_spaces_unique(s, i + 1, j);
    }
}

pub proof fn lemma_trim_end_props(s: Seq<char>, i: int)
    requires
        0 <= i <= s.len(),
    ensures
        0 <= trim_end_idx(s, i) <= i,
        forall|j: int| trim_end_idx(s, i) <= j < i ==> is_space(s[j]),
        trim_end_idx(s, i) > 0 ==> !is_space(s[trim_end_idx(s, i) - 1]),
    decreases i,
{
    if i > 0 && is_space(s[i - 1]) {
        lemma_trim_end_props(s, i - 1);
    }
}

pub proof fn lemma_trim_end_unique(s: Seq<char>, i: int, j: int)
    requires
        0 <= j <= i <= s.len(),
        forall|k: int| j <= k < i ==> is_space(s[k]),
        j == 0 || !is_space(s[j - 1]),
    ensures
        trim_end_idx(s, i) == j,
    decreases i - j,
{
    if j < i {
        lemma_trim_end_unique(s, i - 1, j);
    }
}

/// A string is blank exactly when trimming leaves nothing.
pub proof fn lemma_blank_trim(s: Seq<char>)
    ensures
        is_blank(s) <==> spec_trim(s).len() == 0,
{
    lemma_skip_spaces_props(s, 0);
    lemma_trim_end_props(s, s.len() as int);
    let a = skip_spaces(s, 0);
    let b = trim_end_idx(s, s.len() as int);
    if a < b {
        assert(!is_space(s[a]));
        assert(!is_blank(s));
    }
    if is_blank(s) {
    } else {
        let w = choose|i: int| 0 <= i < s.len() && !is_space(s[i]);
        assert(a <= w);
        assert(b > w);
    }
}

/// The string without leading and trailing whitespace.
pub fn trim_str<'a>(s: &'a str) -> (r: &'a str)
    ensures
        r@ == spec_trim(s@),
{
    let len = s.unicode_len();
    let mut a: usize = 0;
    while a < len && space_char(s.get_char(a))
        invariant
            a <= len,
            len == s@.len(),
            forall|k: int| 0 <= k < a ==> is_space(s@[k]),
        decreases len - a,
    {
        a = a + 1;
    }
    proof {
        lemma_skip_spaces_unique(s@, 0, a as int);
    }
    let mut b: usize = len;
    while b > a && space_char(s.get_char(b - 1))
        invariant
            a <= b <= len,
            len == s@.len(),
            forall|k: int| b <= k < len ==> is_space(s@[k]),
            forall|k: int| 0 <= k < a ==> is_space(s@[k]),
        decreases b,
    {
        b = b - 1;
    }
    if b == a {
        proof {
            lemma_trim_end_props(s@, len as int);
            let t = trim_end_idx(s@, len as int);
            if t > a {
                assert(!is_space(s@[t - 1]));
            }
            assert(trim_end_idx(s@, s@.len() as int) <= a);
        }
        s.substring_char(0, 0)
    } else {
        proof {
            assert(!is_space(s@[b - 1]));
            lemma_trim_end_unique(s@, len as int, b as int);
        }
        s.substring_char(a, b)
    }
}

/// The trimmed string is empty (the string is blank).
pub fn blank_str(s: &str) -> (r: bool)
    ensures
        r == is_blank(s@),
{
    let t = trim_str(s);
    proof {
        lemma_blank_trim(s@);
    }
    t.unicode_len() == 0
}

/// The two strings hold the same characters.
pub fn str_eq(a: &str, b: &str) -> (r: bool)
    ensures
        r == (a@ == b@),
{
    let la = a.unicode_len();
    let lb = b.unicode_len();
    if la != lb {
        return false;
    }
    let mut i: usize = 0;
    while i < la
        invariant
            i <= la,
            la == a@.len(),
            la == b@.len(),
            forall|k: int| 0 <= k < i ==> a@[k] == b@[k],
        decreases la - i,
    {
        if a.get_char(i) != b.get_char(i) {
            return false;
        }
        i = i + 1;
    }
    proof {
        assert(a@ =~= b@);
    }
    true
}

/// Appends one character to a string.
///
/// Relies on `String::push` of std: the character is appended at the end.
#[verifier::external_body]
pub fn push_char(s: &mut String, c: char)
    ensures
        final(s)@ == old(s)@.push(c),
{
    s.push(c);
}

/// The pieces of the string between the occurrences of `c`, in order. A string
/// without `c` is one piece; each separator starts a new piece.
pub open spec fn split_char(s: Seq<char>, c: char) -> Seq<Seq<char>>
    decreases s.len(),
{
    let j = find(s, c);
    if !(0 <= j < s.len()) {
        seq![s]
    } else {
        seq![s.subrange(0, j)] + split_char(s.subrange(j + 1, s.len() as int), c)
    }
}

/// The pieces of the string between the occurrences of `c`, in order.
pub fn split_string(s: &str, c: char) -> (r: Vec<String>)
    ensures
        r@.map_values(|t: String| t@) == split_char(s@, c),
{
    let mut pieces: Vec<String> = Vec::new();
    let len = s.unicode_len();
    let mut pos: usize = 0;
    proof {
        assert(s@.subrange(0, len as int) =~= s@);
        assert(pieces@.map_values(|t: String| t@) =~= Seq::<Seq<char>>::empty());
    }
    loop
        invariant
            pos <= len,
            len == s@.len(),
            split_char(s@, c) == pieces@.map_values(|t: String| t@) + split_char(
                s@.subrange(pos as int, len as int),
                c,
            ),
        decreases len - pos,
    {
        let j = find_char_from(s, c, pos);
        proof {
            lemma_find_from_props(s@, c, pos as int);
        }
        let piece = s.substring_char(pos, j).to_owned();
        proof {
            lemma_find_subrange(s@, c, pos as int);
            let sub = s@.subrange(pos as int, len as int);
            assert(piece@ =~= sub.subrange(0, j - pos));
        }
        pieces.push(piece);
        if j == len {
            proof {
                let sub = s@.subrange(pos as int, len as int);
                assert(split_char(sub, c) =~= seq![sub]);
                assert(pieces@.map_values(|t: String| t@) =~= split_char(s@, c));
            }
            return pieces;
        }
        proof {
            let sub = s@.subrange(pos as int, len as int);
            let tail = s@.subrange(j + 1, len as int);
            assert(sub.subrange(j - pos + 1, sub.len() as int) =~= tail);
            assert(pieces@.map_values(|t: String| t@) + split_char(tail, c) =~= split_char(
                s@,
                c,
            ));
        }
        pos = j + 1;
    }
}

} // verus!
