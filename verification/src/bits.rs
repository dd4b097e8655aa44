//! Facts about bitwise operations shared by the register and bitmap code.
use vstd::prelude::*;

verus! {

/// A value masked by `m` is no larger than `m` or than the value.
pub proof fn lemma_u32_and_le(x: u32, m: u32)
    by (bit_vector)
    ensures
        x & m <= m,
        x & m <= x,
{
}

/// Setting bit `b` of `x` sets exactly that bit.
pub proof fn lemma_u32_set_bit(x: u32, b: u32, c: u32)
    by (bit_vector)
    requires
        b < 32,
        c < 32,
    ensures
        ((x | (1u32 << b)) & (1u32 << c) != 0) == (b == c || x & (1u32 << c) != 0),
{
}

/// A bit of `x | y` is set exactly when it is set in `x` or in `y`.
pub proof fn lemma_u32_or_bit(x: u32, y: u32, c: u32)
    by (bit_vector)
    requires
        c < 32,
    ensures
        ((x | y) & (1u32 << c) != 0) == (x & (1u32 << c) != 0 || y & (1u32 << c) != 0),
{
}

/// Clearing bit `b` of `x` clears exactly that bit.
pub proof fn lemma_u32_clear_bit(x: u32, b: u32, c: u32)
    by (bit_vector)
    requires
        b < 32,
        c < 32,
    ensures
        ((x & !(1u32 << b)) & (1u32 << c) != 0) == (b != c && x & (1u32 << c) != 0),
        x & (1u32 << b) == 0 ==> (x | (1u32 << b)) & !(1u32 << b) == x,
{
}

/// Bit `j` of `v`, read by shifting, agrees with the test by masking.
pub proof fn lemma_u32_bit_test(v: u32, j: u32)
    by (bit_vector)
    requires
        j < 32,
    ensures
        ((v >> j) & 1u32 == 1u32) <==> (v & (1u32 << j) != 0),
        ((v >> j) & 1u32 == 0u32) <==> (v & (1u32 << j) == 0),
        ((!v >> j) & 1u32 == 1u32) <==> (v & (1u32 << j) == 0),
        ((!v >> j) & 1u32 == 0u32) <==> (v & (1u32 << j) != 0),
        v != !0u32 ==> !v != 0,
        0u32 & (1u32 << j) == 0,
        !0u32 & (1u32 << j) != 0,
{
}

/// A value masked by `m` is no larger than `m` or than the value.
pub proof fn lemma_u8_and_le(x: u8, m: u8)
    by (bit_vector)
    ensures
        x & m <= m,
        x & m <= x,
{
}

/// Shifting by nothing keeps the value.
pub proof fn lemma_shr_zero(a: u8, b: u16, c: u32, d: u64)
    by (bit_vector)
    ensures
        a >> 0u8 == a,
        b >> 0u16 == b,
        c >> 0u32 == c,
        d >> 0u64 == d,
        c | 0u32 == c,
{
}

/// Bits `b` and `c` of a byte: read through its complement, after clearing
/// or setting bit `b`, and in zero.
pub proof fn lemma_u8_bits(v: u8, b: u8, c: u8)
    by (bit_vector)
    requires
        b < 8,
        c < 8,
    ensures
        ((!v >> b) & 1u8 == 1u8) <==> (v & (1u8 << b) == 0),
        ((!v >> b) & 1u8 == 0u8) <==> (v & (1u8 << b) != 0),
        v != 0xFFu8 ==> !v != 0,
        ((v & !(1u8 << b)) & (1u8 << c) != 0) <==> (b != c && v & (1u8 << c) != 0),
        ((v | (1u8 << b)) & (1u8 << c) != 0) <==> (b == c || v & (1u8 << c) != 0),
        0u8 & (1u8 << b) == 0,
        0xFFu8 & (1u8 << b) != 0,
        v & (1u8 << b) != 0 ==> (v & !(1u8 << b)) | (1u8 << b) == v,
{
}

} // verus!
