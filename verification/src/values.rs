//! 16-bit value arithmetic: two's-complement wraparound, signed and
//! unsigned reinterpretation, little-endian word assembly and 8-bit sign
//! extension. All register and immediate values in the crate are stated
//! in these terms.

use vstd::prelude::*;

verus! {

/// An unbounded integer reduced to the 16-bit range (wraparound).
pub open spec fn wrap16(v: int) -> u16 {
    (v % 0x10000) as u16
}

/// Wraparound is the identity on values already in range.
pub proof fn lemma_wrap16_in_range(v: int)
    requires
        0 <= v < 0x10000,
    ensures
        wrap16(v) == v,
{
    vstd::arithmetic::div_mod::lemma_small_mod(v as nat, 0x10000nat);
}

/// One step past the top of the range wraps down by 0x10000.
pub proof fn lemma_wrap16_shift_down(v: int)
    requires
        0x10000 <= v < 0x20000,
    ensures
        wrap16(v) == v - 0x10000,
{
    vstd::arithmetic::div_mod::lemma_mod_add_multiples_vanish(v - 0x10000, 0x10000);
    vstd::arithmetic::div_mod::lemma_small_mod((v - 0x10000) as nat, 0x10000nat);
}

/// One step below the bottom of the range wraps up by 0x10000.
pub proof fn lemma_wrap16_shift_up(v: int)
    requires
        -0x10000 <= v < 0,
    ensures
        wrap16(v) == v + 0x10000,
{
    vstd::arithmetic::div_mod::lemma_mod_sub_multiples_vanish(v + 0x10000, 0x10000);
    vstd::arithmetic::div_mod::lemma_small_mod((v + 0x10000) as nat, 0x10000nat);
}

/// The signed (two's-complement) reading of a 16-bit value.
pub open spec fn as_signed(v: u16) -> int {
    if v >= 0x8000 {
        v - 0x10000
    } else {
        v as int
    }
}

/// The unsigned bit pattern of a signed 16-bit value.
pub open spec fn unsigned16(v: i16) -> u16 {
    wrap16(v as int)
}

/// 16-bit wraparound sum, as stored in a register.
pub open spec fn add16(a: u16, b: u16) -> u16 {
    wrap16(a + b)
}

/// 16-bit wraparound difference, as stored in a register.
pub open spec fn sub16(a: u16, b: u16) -> u16 {
    wrap16(a - b)
}

/// A 16-bit word assembled little-endian from two bytes.
pub open spec fn word_le(lo: u8, hi: u8) -> u16 {
    (hi * 256 + lo) as u16
}

/// An 8-bit value widened to 16 bits by replicating bit 7.
pub open spec fn sign_extend(b: u8) -> i16 {
    if b < 128 {
        b as i16
    } else {
        (b - 256) as i16
    }
}

/// A 16-bit word assembled little-endian from two bytes, read as signed.
pub open spec fn word_le_signed(lo: u8, hi: u8) -> i16 {
    as_signed(word_le(lo, hi)) as i16
}

/// Reinterpret a 16-bit value as signed.
pub fn to_signed(v: u16) -> (r: i16)
    ensures
        r as int == as_signed(v),
{
    if v < 0x8000 {
        v as i16
    } else {
        ((v as i32) - 0x10000) as i16
    }
}

/// Reinterpret a signed 16-bit value as its unsigned bit pattern.
pub fn to_unsigned(v: i16) -> (r: u16)
    ensures
        r == unsigned16(v),
{
    if v >= 0 {
        proof {
            lemma_wrap16_in_range(v as int);
        }
        v as u16
    } else {
        proof {
            lemma_wrap16_shift_up(v as int);
        }
        ((v as i32) + 0x10000) as u16
    }
}

/// Assemble a 16-bit word from a low and a high byte.
pub fn assemble_word(lo: u8, hi: u8) -> (r: u16)
    ensures
        r == word_le(lo, hi),
{
    (hi as u16) * 256 + (lo as u16)
}

/// Assemble a 16-bit word from a low and a high byte, read as signed.
pub fn assemble_signed(lo: u8, hi: u8) -> (r: i16)
    ensures
        r == word_le_signed(lo, hi),
{
    to_signed(assemble_word(lo, hi))
}

/// Widen an 8-bit value to 16 bits by sign replication.
pub fn sign_extend_byte(b: u8) -> (r: i16)
    ensures
        r == sign_extend(b),
{
    if b < 128 {
        b as i16
    } else {
        ((b as i32) - 256) as i16
    }
}

/// Sign extension, the signed difference and the unsigned bit pattern
/// agree: the pattern of the widened byte keeps the byte's low 8 bits and
/// fills the high 8 bits with copies of bit 7.
pub proof fn lemma_sign_extend_pattern(b: u8)
    ensures
        b < 128 ==> unsigned16(sign_extend(b)) == b,
        b >= 128 ==> unsigned16(sign_extend(b)) == b + 0xFF00,
{
    if b < 128 {
        lemma_wrap16_in_range(b as int);
    } else {
        lemma_wrap16_shift_up(b - 256);
    }
}

/// Stepping a value by the 16-bit range does not change whether it is
/// even.
pub proof fn lemma_parity_shift(x: int)
    ensures
        (x + 0x10000) % 2 == x % 2,
        (x - 0x10000) % 2 == x % 2,
{
    vstd::arithmetic::div_mod::lemma_add_mod_noop(x, 0x10000, 2);
    vstd::arithmetic::div_mod::lemma_sub_mod_noop(x, 0x10000, 2);
    vstd::arithmetic::div_mod::lemma_mod_twice(x, 2);
}

/// Signed and unsigned reinterpretation are mutually inverse.
pub proof fn lemma_signed_unsigned_roundtrip(v: u16, s: i16)
    ensures
        unsigned16(as_signed(v) as i16) == v,
        as_signed(unsigned16(s)) == s as int,
{
    if v >= 0x8000 {
        lemma_wrap16_shift_up(v - 0x10000);
    } else {
        lemma_wrap16_in_range(v as int);
    }
    if s >= 0 {
        lemma_wrap16_in_range(s as int);
    } else {
        lemma_wrap16_shift_up(s as int);
    }
}

} // verus!
