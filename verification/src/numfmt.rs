//! Rendering integers as decimal, hexadecimal and binary text, and parsing
//! decimal integers, specified over `Seq<char>`.

use crate::text::push_char;
use vstd::prelude::*;

verus! {

/// The decimal digit character for a value below ten.
pub open spec fn dec_char(d: int) -> char {
    if d == 0 {
        '0'
    } else if d == 1 {
        '1'
    } else if d == 2 {
        '2'
    } else if d == 3 {
        '3'
    } else if d == 4 {
        '4'
    } else if d == 5 {
        '5'
    } else if d == 6 {
        '6'
    } else if d == 7 {
        '7'
    } else if d == 8 {
        '8'
    } else {
        '9'
    }
}

/// The lower-case hexadecimal digit character for a value below sixteen.
pub open spec fn hex_char(d: int) -> char {
    if d < 10 {
        dec_char(d)
    } else if d == 10 {
        'a'
    } else if d == 11 {
        'b'
    } else if d == 12 {
        'c'
    } else if d == 13 {
        'd'
    } else if d == 14 {
        'e'
    } else {
        'f'
    }
}

/// The decimal rendering of a non-negative value, without leading zeros
/// (except for the value zero itself).
pub open spec fn spec_dec_nat(n: nat) -> Seq<char>
    decreases n,
{
    if n < 10 {
        seq![dec_char(n as int)]
    } else {
        spec_dec_nat(n / 10).push(dec_char((n % 10) as int))
    }
}

/// The decimal rendering of a signed value: a minus sign before the digits of
/// its magnitude.
pub open spec fn spec_dec_int(v: int) -> Seq<char> {
    if v < 0 {
        seq!['-'] + spec_dec_nat((-v) as nat)
    } else {
        spec_dec_nat(v as nat)
    }
}

/// The hexadecimal rendering of a value, zero-padded to the width in digits
/// (the low `width` digits, for a wider value).
pub open spec fn spec_hex_pad(n: nat, width: nat) -> Seq<char>
    decreases width,
{
    if width == 0 {
        Seq::empty()
    } else {
        spec_hex_pad(n / 16, (width - 1) as nat).push(hex_char((n % 16) as int))
    }
}

/// The hexadecimal rendering of a value without leading zeros (except zero).
pub open spec fn spec_hex_min(n: nat) -> Seq<char>
    decreases n,
{
    if n < 16 {
        seq![hex_char(n as int)]
    } else {
        spec_hex_min(n / 16).push(hex_char((n % 16) as int))
    }
}

/// The binary rendering of a value, zero-padded to the width in digits.
pub open spec fn spec_bin_pad(n: nat, width: nat) -> Seq<char>
    decreases width,
{
    if width == 0 {
        Seq::empty()
    } else {
        spec_bin_pad(n / 2, (width - 1) as nat).push(dec_char((n % 2) as int))
    }
}

/// The binary rendering of a value without leading zeros (except zero).
pub open spec fn spec_bin_min(n: nat) -> Seq<char>
    decreases n,
{
    if n < 2 {
        seq![dec_char(n as int)]
    } else {
        spec_bin_min(n / 2).push(dec_char((n % 2) as int))
    }
}

fn dec_digit(d: u64) -> (c: char)
    requires
        d < 10,
    ensures
        c == dec_char(d as int),
{
    match d {
        0 => '0',
        1 => '1',
        2 => '2',
        3 => '3',
        4 => '4',
        5 => '5',
        6 => '6',
        7 => '7',
        8 => '8',
        _ => '9',
    }
}

fn hex_digit(d: u64) -> (c: char)
    requires
        d < 16,
    ensures
        c == hex_char(d as int),
{
    match d {
        10 => 'a',
        11 => 'b',
        12 => 'c',
        13 => 'd',
        14 => 'e',
        15 => 'f',
        _ => dec_digit(d),
    }
}

/// The decimal rendering of an unsigned value.
pub fn dec_string_u64(n: u64) -> (r: String)
    ensures
        r@ == spec_dec_nat(n as nat),
    decreases n,
{
    if n < 10 {
        let mut s = String::new();
        push_char(&mut s, dec_digit(n));
        proof {
            assert(s@ =~= spec_dec_nat(n as nat));
        }
        s
    } else {
        let mut s = dec_string_u64(n / 10);
        push_char(&mut s, dec_digit(n % 10));
        s
    }
}

/// The decimal rendering of a signed value.
pub fn dec_string_i64(v: i64) -> (r: String)
    ensures
        r@ == spec_dec_int(v as int),
{
    if v < 0 {
        let magnitude: u64 = if v == i64::MIN {
            0x8000_0000_0000_0000u64
        } else {
            (-v) as u64
        };
        let mut s = String::new();
        push_char(&mut s, '-');
        let digits = dec_string_u64(magnitude);
        s.append(digits.as_str());
        proof {
            assert(s@ =~= spec_dec_int(v as int));
        }
        s
    } else {
        dec_string_u64(v as u64)
    }
}

/// The hexadecimal rendering of a value, zero-padded to the width.
pub fn hex_string_pad(n: u64, width: u8) -> (r: String)
    ensures
        r@ == spec_hex_pad(n as nat, width as nat),
    decreases width,
{
    if width == 0 {
        let s = String::new();
        proof {
            assert(s@ =~= spec_hex_pad(n as nat, 0));
        }
        s
    } else {
        let mut s = hex_string_pad(n / 16, width - 1);
        push_char(&mut s, hex_digit(n % 16));
        s
    }
}

/// The hexadecimal rendering of a value without leading zeros.
pub fn hex_string_min(n: u64) -> (r: String)
    ensures
        r@ == spec_hex_min(n as nat),
    decreases n,
{
    if n < 16 {
        let mut s = String::new();
        push_char(&mut s, hex_digit(n));
        proof {
            assert(s@ =~= spec_hex_min(n as nat));
        }
        s
    } else {
        let mut s = hex_string_min(n / 16);
        push_char(&mut s, hex_digit(n % 16));
        s
    }
}

/// The binary rendering of a value, zero-padded to the width.
pub fn bin_string_pad(n: u64, width: u8) -> (r: String)
    ensures
        r@ == spec_bin_pad(n as nat, width as nat),
    decreases width,
{
    if width == 0 {
        let s = String::new();
        proof {
            assert(s@ =~= spec_bin_pad(n as nat, 0));
        }
        s
    } else {
        let mut s = bin_string_pad(n / 2, width - 1);
        push_char(&mut s, dec_digit(n % 2));
        s
    }
}

/// The binary rendering of a value without leading zeros.
pub fn bin_string_min(n: u64) -> (r: String)
    ensures
        r@ == spec_bin_min(n as nat),
    decreases n,
{
    if n < 2 {
        let mut s = String::new();
        push_char(&mut s, dec_digit(n));
        proof {
            assert(s@ =~= spec_bin_min(n as nat));
        }
        s
    } else {
        let mut s = bin_string_min(n / 2);
        push_char(&mut s, dec_digit(n % 2));
        s
    }
}

pub proof fn lemma_bin_pad_len(n: nat, width: nat)
    ensures
        spec_bin_pad(n, width).len() == width,
    decreases width,
{
    if width > 0 {
        lemma_bin_pad_len(n / 2, (width - 1) as nat);
    }
}

pub proof fn lemma_hex_pad_len(n: nat, width: nat)
    ensures
        spec_hex_pad(n, width).len() == width,
    decreases width,
{
    if width > 0 {
        lemma_hex_pad_len(n / 16, (width - 1) as nat);
    }
}

// ---------------------------------------------------------------------------
// Parsing decimal integers.
// ---------------------------------------------------------------------------
/// The character is a decimal digit.
pub open spec fn is_digit(c: char) -> bool {
    48 <= c as u32 <= 57
}

/// The digit's value.
pub open spec fn digit_val(c: char) -> int {
    c as u32 - 48
}

/// Every character is a decimal digit.
pub open spec fn all_digits(s: Seq<char>) -> bool {
    forall|i: int| 0 <= i < s.len() ==> is_digit(s[i])
}

/// The value of a digit string, most significant digit first.
pub open spec fn digits_val(s: Seq<char>) -> int
    decreases s.len(),
{
    if s.len() == 0 {
        0
    } else {
        digits_val(s.drop_last()) * 10 + digit_val(s.last())
    }
}

/// The value of a decimal integer written with an optional sign and at least
/// one digit, or nothing if the string has any other shape.
pub open spec fn spec_parse_int(s: Seq<char>) -> Option<int> {
    if s.len() >= 1 && (s[0] == '-' || s[0] == '+') {
        let d = s.subrange(1, s.len() as int);
        if d.len() >= 1 && all_digits(d) {
            if s[0] == '-' {
                Some(-digits_val(d))
            } else {
                Some(digits_val(d))
            }
        } else {
            None
        }
    } else if s.len() >= 1 && all_digits(s) {
        Some(digits_val(s))
    } else {
        None
    }
}

/// The value of a decimal integer written with an optional plus sign and at
/// least one digit (no minus sign), or nothing otherwise.
pub open spec fn spec_parse_uint(s: Seq<char>) -> Option<int> {
    match spec_parse_int(s) {
        Some(v) => if s[0] == '-' {
            None
        } else {
            Some(v)
        },
        None => None,
    }
}

proof fn lemma_digits_val_bounds(s: Seq<char>)
    requires
        all_digits(s),
    ensures
        0 <= digits_val(s),
    decreases s.len(),
{
    if s.len() > 0 {
        assert(all_digits(s.drop_last()));
        lemma_digits_val_bounds(s.drop_last());
    }
}

/// Parsing saturates at 2^32: above that cap only the fact of overflow is
/// kept, which is all the bounded parsers need.
const PARSE_SAT: u64 = 0x1_0000_0000;

/// The saturated value of the digit run from `start` to the end: the exact
/// value below the cap, the cap itself when the value reaches it. Nothing when
/// the run is empty or holds a non-digit.
fn parse_digits_sat(s: &str, start: usize) -> (r: Option<u64>)
    requires
        start <= s@.len(),
    ensures
        ({
            let d = s@.subrange(start as int, s@.len() as int);
            match r {
                Some(a) => {
                    &&& d.len() >= 1
                    &&& all_digits(d)
                    &&& a <= PARSE_SAT
                    &&& a < PARSE_SAT ==> a == digits_val(d)
                    &&& a == PARSE_SAT ==> digits_val(d) >= PARSE_SAT
                },
                None => !(d.len() >= 1 && all_digits(d)),
            }
        }),
{
    let len = vstd::string::StrSliceExecFns::unicode_len(s);
    if start >= len {
        return None;
    }
    let ghost d = s@.subrange(start as int, s@.len() as int);
    let mut acc: u64 = 0;
    let mut i = start;
    while i < len
        invariant
            start <= i <= len,
            len == s@.len(),
            d == s@.subrange(start as int, s@.len() as int),
            all_digits(s@.subrange(start as int, i as int)),
            acc <= PARSE_SAT,
            acc < PARSE_SAT ==> acc == digits_val(s@.subrange(start as int, i as int)),
            acc == PARSE_SAT ==> digits_val(s@.subrange(start as int, i as int)) >= PARSE_SAT,
        decreases len - i,
    {
        let c = s.get_char(i);
        let cv = c as u32;
        if cv < 48 || cv > 57 {
            proof {
                assert(d[i - start] == s@[i as int]);
                assert(!is_digit(d[i - start]));
            }
            return None;
        }
        let ghost prefix = s@.subrange(start as int, i as int);
        let ghost next_prefix = s@.subrange(start as int, i + 1);
        proof {
            assert(next_prefix.drop_last() =~= prefix);
            assert(all_digits(prefix));
            lemma_digits_val_bounds(prefix);
        }
        let dv = (cv - 48) as u64;
        let wide = acc * 10 + dv;
        proof {
            if acc < PARSE_SAT {
                assert(digits_val(next_prefix) == acc * 10 + dv);
            } else {
                assert(digits_val(next_prefix) == digits_val(prefix) * 10 + digit_val(
                    next_prefix.last(),
                ));
                assert(digits_val(prefix) * 10 >= PARSE_SAT * 10) by (nonlinear_arith)
                    requires
                        digits_val(prefix) >= PARSE_SAT,
                ;
            }
        }
        acc = if wide >= PARSE_SAT {
            PARSE_SAT
        } else {
            wide
        };
        i = i + 1;
    }
    proof {
        assert(s@.subrange(start as int, len as int) =~= d);
    }
    Some(acc)
}

/// The signed 16-bit value written in decimal (optional sign, at least one
/// digit), or nothing when the text is malformed or the value does not fit.
pub fn parse_i16(s: &str) -> (r: Option<i16>)
    ensures
        r == match spec_parse_int(s@) {
            Some(v) => if -0x8000 <= v <= 0x7FFF {
                Some(v as i16)
            } else {
                None::<i16>
            },
            None => None::<i16>,
        },
{
    let len = vstd::string::StrSliceExecFns::unicode_len(s);
    if len == 0 {
        return None;
    }
    let first = s.get_char(0);
    if first == '-' || first == '+' {
        match parse_digits_sat(s, 1) {
            Some(a) => {
                proof {
                    lemma_digits_val_bounds(s@.subrange(1, s@.len() as int));
                }
                if first == '-' {
                    if a <= 0x8000 {
                        Some((-(a as i64)) as i16)
                    } else {
                        None
                    }
                } else {
                    if a <= 0x7FFF {
                        Some(a as i16)
                    } else {
                        None
                    }
                }
            },
            None => None,
        }
    } else {
        match parse_digits_sat(s, 0) {
            Some(a) => {
                proof {
                    assert(s@.subrange(0, s@.len() as int) =~= s@);
                }
                if a <= 0x7FFF {
                    Some(a as i16)
                } else {
                    None
                }
            },
            None => None,
        }
    }
}

/// The unsigned 32-bit value written in decimal (optional plus sign, at least
/// one digit), or nothing when the text is malformed or the value does not
/// fit.
pub fn parse_u32(s: &str) -> (r: Option<u32>)
    ensures
        r == match spec_parse_uint(s@) {
            Some(v) => if v <= 0xFFFF_FFFF {
                Some(v as u32)
            } else {
                None::<u32>
            },
            None => None::<u32>,
        },
        spec_parse_uint(s@) matches Some(v) ==> v >= 0,
{
    proof {
        lemma_parse_uint_nonneg(s@);
    }
    let len = vstd::string::StrSliceExecFns::unicode_len(s);
    if len == 0 {
        return None;
    }
    let first = s.get_char(0);
    if first == '-' {
        return None;
    }
    let start: usize = if first == '+' {
        1
    } else {
        0
    };
    match parse_digits_sat(s, start) {
        Some(a) => {
            proof {
                if start == 0 {
                    assert(s@.subrange(0, s@.len() as int) =~= s@);
                }
                lemma_digits_val_bounds(s@.subrange(start as int, s@.len() as int));
            }
            if a < 0x1_0000_0000 {
                Some(a as u32)
            } else {
                None
            }
        },
        None => None,
    }
}

/// A parsed unsigned decimal value is non-negative.
pub proof fn lemma_parse_uint_nonneg(s: Seq<char>)
    ensures
        spec_parse_uint(s) matches Some(v) ==> v >= 0,
{
    if spec_parse_uint(s) is Some {
        if s.len() >= 1 && (s[0] == '-' || s[0] == '+') {
            lemma_digits_val_bounds(s.subrange(1, s.len() as int));
        } else {
            lemma_digits_val_bounds(s);
        }
    }
}

/// The unsigned 8-bit value written in decimal, or nothing when the text is
/// malformed or the value does not fit.
pub fn parse_u8(s: &str) -> (r: Option<u8>)
    ensures
        r == match spec_parse_uint(s@) {
            Some(v) => if v <= 0xFF {
                Some(v as u8)
            } else {
                None::<u8>
            },
            None => None::<u8>,
        },
        spec_parse_uint(s@) matches Some(v) ==> v >= 0,
{
    proof {
        lemma_parse_uint_nonneg(s@);
    }
    match parse_u32(s) {
        Some(v) => if v <= 0xFF {
            Some(v as u8)
        } else {
            None
        },
        None => None,
    }
}

} // verus!
