//! Number-base writers for the state viewer: the same value rendered as
//! decimal, hexadecimal or binary text; a missing value renders as `-`.

use crate::numfmt::{spec_bin_min, spec_dec_int, spec_dec_nat, spec_hex_min};
use crate::word::u32_of_i32;
use vstd::prelude::*;
use vstd::string::StringExecFns;

verus! {

/// A way to render a possibly-missing value as text in one number base.
pub trait NumValWriter {
    /// The rendering of a signed value.
    spec fn spec_write(&self, val: Option<i32>) -> Seq<char>;

    /// The rendering of an unsigned value.
    spec fn spec_write_unsigned(&self, val: Option<u32>) -> Seq<char>;

    fn write(&self, val: Option<i32>) -> (r: String)
        ensures
            r@ == self.spec_write(val),
    ;

    fn write_unsigned(&self, val: Option<u32>) -> (r: String)
        ensures
            r@ == self.spec_write_unsigned(val),
    ;
}

/// Renders values as `0x`-prefixed lower-case hex; a signed value shows its
/// two's-complement bit pattern.
pub struct HexValWriter {}

impl NumValWriter for HexValWriter {
    open spec fn spec_write(&self, val: Option<i32>) -> Seq<char> {
        match val {
            None => "-"@,
            Some(v) => seq!['0', 'x'] + spec_hex_min(u32_of_i32(v) as nat),
        }
    }

    open spec fn spec_write_unsigned(&self, val: Option<u32>) -> Seq<char> {
        match val {
            None => "-"@,
            Some(v) => seq!['0', 'x'] + spec_hex_min(v as nat),
        }
    }

    fn write(&self, val: Option<i32>) -> (r: String) {
        match val {
            None => String::from_str("-"),
            Some(v) => {
                let mut s = String::new();
                crate::text::push_char(&mut s, '0');
                crate::text::push_char(&mut s, 'x');
                let digits = crate::numfmt::hex_string_min(crate::word::to_bits(v) as u64);
                s.append(digits.as_str());
                proof {
                    assert(s@ =~= self.spec_write(val));
                }
                s
            },
        }
    }

    fn write_unsigned(&self, val: Option<u32>) -> (r: String) {
        match val {
            None => String::from_str("-"),
            Some(v) => {
                let mut s = String::new();
                crate::text::push_char(&mut s, '0');
                crate::text::push_char(&mut s, 'x');
                let digits = crate::numfmt::hex_string_min(v as u64);
                s.append(digits.as_str());
                proof {
                    assert(s@ =~= self.spec_write_unsigned(val));
                }
                s
            },
        }
    }
}

/// Renders values in decimal.
pub struct DecValWriter {}

impl NumValWriter for DecValWriter {
    open spec fn spec_write(&self, val: Option<i32>) -> Seq<char> {
        match val {
            None => "-"@,
            Some(v) => spec_dec_int(v as int),
        }
    }

    open spec fn spec_write_unsigned(&self, val: Option<u32>) -> Seq<char> {
        match val {
            None => "-"@,
            Some(v) => spec_dec_nat(v as nat),
        }
    }

    fn write(&self, val: Option<i32>) -> (r: String) {
        match val {
            None => String::from_str("-"),
            Some(v) => crate::numfmt::dec_string_i64(v as i64),
        }
    }

    fn write_unsigned(&self, val: Option<u32>) -> (r: String) {
        match val {
            None => String::from_str("-"),
            Some(v) => crate::numfmt::dec_string_u64(v as u64),
        }
    }
}

/// Renders values as `0b`-prefixed binary; a signed value shows its
/// two's-complement bit pattern.
pub struct BinValWriter {}

impl NumValWriter for BinValWriter {
    open spec fn spec_write(&self, val: Option<i32>) -> Seq<char> {
        match val {
            None => "-"@,
            Some(v) => seq!['0', 'b'] + spec_bin_min(u32_of_i32(v) as nat),
        }
    }

    open spec fn spec_write_unsigned(&self, val: Option<u32>) -> Seq<char> {
        match val {
            None => "-"@,
            Some(v) => seq!['0', 'b'] + spec_bin_min(v as nat),
        }
    }

    fn write(&self, val: Option<i32>) -> (r: String) {
        match val {
            None => String::from_str("-"),
            Some(v) => {
                let mut s = String::new();
                crate::text::push_char(&mut s, '0');
                crate::text::push_char(&mut s, 'b');
                let digits = crate::numfmt::bin_string_min(crate::word::to_bits(v) as u64);
                s.append(digits.as_str());
                proof {
                    assert(s@ =~= self.spec_write(val));
                }
                s
            },
        }
    }

    fn write_unsigned(&self, val: Option<u32>) -> (r: String) {
        match val {
            None => String::from_str("-"),
            Some(v) => {
                let mut s = String::new();
                crate::text::push_char(&mut s, '0');
                crate::text::push_char(&mut s, 'b');
                let digits = crate::numfmt::bin_string_min(v as u64);
                s.append(digits.as_str());
                proof {
                    assert(s@ =~= self.spec_write_unsigned(val));
                }
                s
            },
        }
    }
}

} // verus!
