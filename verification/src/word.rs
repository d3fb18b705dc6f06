//! Conversions between signed 32-bit values and their unsigned two's-complement
//! bit patterns, and the arithmetic/logical right shifts of the ALU.

use vstd::arithmetic::power2::pow2;
use vstd::prelude::*;

verus! {

pub const TWO_32: u64 = 0x1_0000_0000;

/// The unsigned two's-complement bit pattern of a signed 32-bit value.
pub open spec fn u32_of_i32(x: i32) -> u32 {
    ((x as int) % (TWO_32 as int)) as u32
}

/// The signed 32-bit value whose two's-complement bit pattern is the argument.
pub open spec fn i32_of_u32(x: u32) -> i32 {
    if x >= 0x8000_0000 {
        (x - TWO_32) as i32
    } else {
        x as i32
    }
}

pub broadcast proof fn lemma_u32_of_i32(x: i32)
    ensures
        #[trigger] u32_of_i32(x) == if x >= 0 {
            x as int
        } else {
            x + TWO_32
        },
        i32_of_u32(u32_of_i32(x)) == x,
{
}

pub proof fn lemma_i32_of_u32(x: u32)
    ensures
        u32_of_i32(i32_of_u32(x)) == x,
{
}

/// The unsigned two's-complement bit pattern of a signed 32-bit value.
pub fn to_bits(x: i32) -> (r: u32)
    ensures
        r == u32_of_i32(x),
{
    if x >= 0 {
        x as u32
    } else {
        ((x as i64) + (TWO_32 as i64)) as u32
    }
}

/// The signed 32-bit value with the given two's-complement bit pattern.
pub fn from_bits(x: u32) -> (r: i32)
    ensures
        r == i32_of_u32(x),
{
    if x >= 0x8000_0000 {
        ((x as i64) - (TWO_32 as i64)) as i32
    } else {
        x as i32
    }
}

/// Powers of two up to the exponent 31 fit in 32 bits.
pub proof fn lemma_pow2_le_u32(sh: nat)
    requires
        sh < 32,
    ensures
        1 <= pow2(sh) <= 0x8000_0000,
{
    vstd::arithmetic::power2::lemma_pow2_pos(sh);
    vstd::arithmetic::power2::lemma2_to64();
    if sh < 31 {
        vstd::arithmetic::power2::lemma_pow2_strictly_increases(sh, 31);
    }
}

/// Two to the given power, for exponents below 32.
pub fn pow2_u32(sh: u32) -> (r: u32)
    requires
        sh < 32,
    ensures
        r == pow2(sh as nat),
        1 <= r <= 0x8000_0000,
{
    let mut r: u32 = 1;
    let mut i: u32 = 0;
    proof {
        vstd::arithmetic::power2::lemma2_to64();
        lemma_pow2_le_u32(sh as nat);
    }
    while i < sh
        invariant
            i <= sh < 32,
            r == pow2(i as nat),
            pow2(sh as nat) <= 0x8000_0000,
        decreases sh - i,
    {
        proof {
            vstd::arithmetic::power2::lemma_pow2_unfold((i + 1) as nat);
            if i + 1 < sh {
                vstd::arithmetic::power2::lemma_pow2_strictly_increases((i + 1) as nat, sh as nat);
            }
        }
        r = r * 2;
        i = i + 1;
    }
    r
}

/// Logical right shift of a signed 32-bit value: the bit pattern is shifted
/// with zero fill and read back as signed.
pub open spec fn spec_srl(a: i32, sh: nat) -> i32
    recommends
        sh < 32,
{
    i32_of_u32((u32_of_i32(a) / (pow2(sh) as u32)) as u32)
}

/// Arithmetic right shift of a signed 32-bit value: division by a power of
/// two, rounding toward negative infinity.
pub open spec fn spec_sra(a: i32, sh: nat) -> i32
    recommends
        sh < 32,
{
    ((a as int) / (pow2(sh) as int)) as i32
}

pub fn exec_srl(a: i32, sh: u32) -> (r: i32)
    requires
        sh < 32,
    ensures
        r == spec_srl(a, sh as nat),
{
    let d = pow2_u32(sh);
    let p = to_bits(a);
    from_bits(p / d)
}

pub fn exec_sra(a: i32, sh: u32) -> (r: i32)
    requires
        sh < 32,
    ensures
        r == spec_sra(a, sh as nat),
{
    let d = pow2_u32(sh);
    if a >= 0 {
        let r = (a as i64) / (d as i64);
        proof {
            assert(r == (a as int) / (d as int));
        }
        r as i32
    } else {
        let n: i64 = -(a as i64);
        let q: i64 = (n + (d as i64) - 1) / (d as i64);
        proof {
            lemma_neg_div_floor(a as int, d as int);
        }
        (-q) as i32
    }
}

/// Floor division of a negative value by a positive divisor, written with
/// non-negative operands: -((-a + d - 1) / d).
proof fn lemma_neg_div_floor(a: int, d: int)
    requires
        a < 0,
        d >= 1,
    ensures
        a / d == -((-a + d - 1) / d),
        1 <= (-a + d - 1) / d <= -a,
{
    let n = -a;
    let q = (n + d - 1) / d;
    let rem = (n + d - 1) % d;
    vstd::arithmetic::div_mod::lemma_fundamental_div_mod(n + d - 1, d);
    vstd::arithmetic::div_mod::lemma_mod_bound(n + d - 1, d);
    assert(n + d - 1 == d * q + rem);
    let b = a + d * q;
    assert(0 <= b < d) by (nonlinear_arith)
        requires
            b == a + d * q,
            n + d - 1 == d * q + rem,
            0 <= rem < d,
            n == -a,
            d >= 1,
    ;
    assert(a == d * (-q) + b) by (nonlinear_arith)
        requires
            b == a + d * q,
    ;
    vstd::arithmetic::div_mod::lemma_div_multiples_vanish_fancy(-q, b, d);
    assert((d * (-q) + b) / d == -q);
    assert(1 <= q <= n) by (nonlinear_arith)
        requires
            n + d - 1 == d * q + rem,
            0 <= rem < d,
            d >= 1,
            n >= 1,
    ;
}

} // verus!
