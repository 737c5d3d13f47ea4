//! Fixed-width arithmetic helpers shared by the decoder and the executor:
//! wrapping addition, two's-complement sign extension, signed comparison
//! and arithmetic shifts on the 64-bit carriers the emulator uses.

use vstd::prelude::*;

verus! {

/// The value of a 64-bit word read as a two's-complement integer.
pub open spec fn to_signed64(x: u64) -> int {
    if x < 0x8000_0000_0000_0000 {
        x as int
    } else {
        x as int - 0x1_0000_0000_0000_0000
    }
}

/// An 8-bit value sign-extended to 64 bits.
pub open spec fn sext8_64(v: u8) -> u64 {
    if v < 0x80 {
        v as u64
    } else {
        (v + 0xFFFF_FFFF_FFFF_FF00) as u64
    }
}

/// A 16-bit value sign-extended to 64 bits.
pub open spec fn sext16_64(v: u16) -> u64 {
    if v < 0x8000 {
        v as u64
    } else {
        (v + 0xFFFF_FFFF_FFFF_0000) as u64
    }
}

/// A 32-bit value sign-extended to 64 bits.
pub open spec fn sext32_64(v: u32) -> u64 {
    if v < 0x8000_0000 {
        v as u64
    } else {
        (v + 0xFFFF_FFFF_0000_0000) as u64
    }
}

/// A signed 32-bit immediate reinterpreted as the 64-bit word with the
/// same two's-complement value.
pub open spec fn sext_imm64(imm: i32) -> u64 {
    if imm >= 0 {
        imm as u64
    } else {
        (imm + 0x1_0000_0000_0000_0000) as u64
    }
}

/// Addition modulo 2^64.
pub open spec fn wrap_add64(x: u64, y: u64) -> u64 {
    vstd::wrapping::u64_specs::wrapping_add(x, y)
}

/// Subtraction modulo 2^64.
pub open spec fn wrap_sub64(x: u64, y: u64) -> u64 {
    vstd::wrapping::u64_specs::wrapping_sub(x, y)
}

/// Addition of the low 32 bits, modulo 2^32.
pub open spec fn wrap_add32(x: u32, y: u32) -> u32 {
    vstd::wrapping::u32_specs::wrapping_add(x, y)
}

/// Subtraction of the low 32 bits, modulo 2^32.
pub open spec fn wrap_sub32(x: u32, y: u32) -> u32 {
    vstd::wrapping::u32_specs::wrapping_sub(x, y)
}

/// 64-bit arithmetic shift right: the word is read as two's complement,
/// shifted, and the result reinterpreted as an unsigned word.
pub open spec fn shr_arith64(x: u64, sh: u64) -> u64
    recommends
        sh < 64,
{
    ((x as i64) >> sh) as u64
}

/// 32-bit arithmetic shift right on the low 32 bits of a word.
pub open spec fn shr_arith32(x: u32, sh: u64) -> u32
    recommends
        sh < 32,
{
    ((x as i32) >> sh) as u32
}

/// The 16-bit little-endian value held by two bytes of a sequence.
pub open spec fn le16(s: Seq<u8>, i: int) -> u16
    recommends
        0 <= i,
        i + 2 <= s.len(),
{
    ((s[i + 1] as u16) << 8) | (s[i] as u16)
}

/// The 32-bit little-endian value held by four bytes of a sequence.
pub open spec fn le32(s: Seq<u8>, i: int) -> u32
    recommends
        0 <= i,
        i + 4 <= s.len(),
{
    ((s[i + 3] as u32) << 24) | ((s[i + 2] as u32) << 16) | ((s[i + 1] as u32) << 8) | (s[i]
        as u32)
}

/// The 64-bit little-endian value held by eight bytes of a sequence.
pub open spec fn le64(s: Seq<u8>, i: int) -> u64
    recommends
        0 <= i,
        i + 8 <= s.len(),
{
    ((s[i + 7] as u64) << 56) | ((s[i + 6] as u64) << 48) | ((s[i + 5] as u64) << 40) | ((s[i
        + 4] as u64) << 32) | ((s[i + 3] as u64) << 24) | ((s[i + 2] as u64) << 16) | ((s[i + 1]
        as u64) << 8) | (s[i] as u64)
}

/// A byte sequence with a 16-bit value stored little-endian at `i`.
pub open spec fn store_le16(s: Seq<u8>, i: int, v: u16) -> Seq<u8>
    recommends
        0 <= i,
        i + 2 <= s.len(),
{
    s.update(i, v as u8).update(i + 1, (v >> 8) as u8)
}

/// A byte sequence with a 32-bit value stored little-endian at `i`.
pub open spec fn store_le32(s: Seq<u8>, i: int, v: u32) -> Seq<u8>
    recommends
        0 <= i,
        i + 4 <= s.len(),
{
    s.update(i, v as u8).update(i + 1, (v >> 8) as u8).update(i + 2, (v >> 16) as u8).update(
        i + 3,
        (v >> 24) as u8,
    )
}

/// A byte sequence with a 64-bit value stored little-endian at `i`.
pub open spec fn store_le64(s: Seq<u8>, i: int, v: u64) -> Seq<u8>
    recommends
        0 <= i,
        i + 8 <= s.len(),
{
    s.update(i, v as u8).update(i + 1, (v >> 8) as u8).update(i + 2, (v >> 16) as u8).update(
        i + 3,
        (v >> 24) as u8,
    ).update(i + 4, (v >> 32) as u8).update(i + 5, (v >> 40) as u8).update(
        i + 6,
        (v >> 48) as u8,
    ).update(i + 7, (v >> 56) as u8)
}

/// Sign-extending a 32-bit immediate to a 64-bit word keeps its
/// two's-complement value.
pub proof fn lemma_signed_of_sext(imm: i32)
    ensures
        to_signed64(sext_imm64(imm)) == imm as int,
{
}

/// The low six bits of a word are below 64; they bound a 64-bit shift.
pub proof fn lemma_mask6_u64(x: u64)
    by (bit_vector)
    ensures
        x & 0x3f < 64,
{
}

/// The low five bits of a word are below 32; they bound a 32-bit shift.
pub proof fn lemma_mask5_u64(x: u64)
    by (bit_vector)
    ensures
        x & 0x1f < 32,
{
}

/// Sign-extend an 8-bit value to 64 bits.
pub fn sign_extend_u8(v: u8) -> (r: u64)
    ensures
        r == sext8_64(v),
{
    if v < 0x80 {
        v as u64
    } else {
        v as u64 + 0xFFFF_FFFF_FFFF_FF00
    }
}

/// Sign-extend a 16-bit value to 64 bits.
pub fn sign_extend_u16(v: u16) -> (r: u64)
    ensures
        r == sext16_64(v),
{
    if v < 0x8000 {
        v as u64
    } else {
        v as u64 + 0xFFFF_FFFF_FFFF_0000
    }
}

/// Sign-extend a 32-bit value to 64 bits.
pub fn sign_extend_u32(v: u32) -> (r: u64)
    ensures
        r == sext32_64(v),
{
    if v < 0x8000_0000 {
        v as u64
    } else {
        v as u64 + 0xFFFF_FFFF_0000_0000
    }
}

/// Reinterpret a signed 32-bit immediate as the 64-bit word with the
/// same two's-complement value.
pub fn sign_extend_imm(imm: i32) -> (r: u64)
    ensures
        r == sext_imm64(imm),
{
    if imm >= 0 {
        imm as u64
    } else {
        let mag = -(imm as i64);
        0u64.wrapping_sub(mag as u64)
    }
}

/// Compare two 64-bit words as two's-complement integers.
pub fn signed_less_than(a: u64, b: u64) -> (r: bool)
    ensures
        r == (to_signed64(a) < to_signed64(b)),
{
    let a_neg = a >= 0x8000_0000_0000_0000;
    let b_neg = b >= 0x8000_0000_0000_0000;
    if a_neg != b_neg {
        a_neg
    } else {
        a < b
    }
}

/// 64-bit arithmetic shift right.
pub fn shift_right_arith64(x: u64, sh: u64) -> (r: u64)
    requires
        sh < 64,
    ensures
        r == shr_arith64(x, sh),
{
    ((x as i64) >> sh) as u64
}

/// 32-bit arithmetic shift right on the low 32 bits of a word.
pub fn shift_right_arith32(x: u32, sh: u64) -> (r: u32)
    requires
        sh < 32,
    ensures
        r == shr_arith32(x, sh),
{
    ((x as i32) >> sh) as u32
}

} // verus!
