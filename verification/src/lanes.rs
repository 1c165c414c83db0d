//! Lane-level semantics shared by every engine.
//!
//! Each operation of the table has one meaning per element kind, given here
//! as a spec function over single lanes.  The scalar engine's contract says
//! its result *is* this function of its operands; a wide engine's contract
//! says every result lane is this function of the operand lanes.  That the
//! two say it through the same function is the portability contract: engines
//! cannot disagree on any input.

use vstd::prelude::*;
use vstd::wrapping::{i16_specs, i32_specs, i64_specs, i8_specs};

verus! {

// ---------------------------------------------------------------------------
// 8-bit lanes
// ---------------------------------------------------------------------------

/// Addition wrapping modulo 2^8.
pub open spec fn add_i8(a: i8, b: i8) -> i8 {
    i8_specs::wrapping_add(a, b)
}

/// Subtraction wrapping modulo 2^8.
pub open spec fn sub_i8(a: i8, b: i8) -> i8 {
    i8_specs::wrapping_sub(a, b)
}

/// Multiplication wrapping modulo 2^8.
pub open spec fn mul_i8(a: i8, b: i8) -> i8 {
    i8_specs::wrapping_mul(a, b)
}

pub open spec fn min_i8(a: i8, b: i8) -> i8 {
    if a < b {
        a
    } else {
        b
    }
}

pub open spec fn max_i8(a: i8, b: i8) -> i8 {
    if a > b {
        a
    } else {
        b
    }
}

/// Absolute value, wrapping: the most negative value has no positive
/// counterpart and is its own absolute value, as two's-complement negation
/// leaves it unchanged; nothing traps.
pub open spec fn abs_i8(a: i8) -> i8 {
    if a == i8::MIN {
        a
    } else if a < 0 {
        (0 - a as int) as i8
    } else {
        a
    }
}

/// A comparison lane: all bits set when the comparison holds, all clear
/// otherwise.
pub open spec fn mask_i8(b: bool) -> i8 {
    if b {
        -1i8
    } else {
        0
    }
}

/// Lane selection: a zero mask lane keeps the first operand, any nonzero
/// mask lane (in particular the all-ones lane a comparison produces) takes
/// the second.
pub open spec fn blend_i8(a: i8, b: i8, mask: i8) -> i8 {
    if mask == 0 {
        a
    } else {
        b
    }
}

/// Left shift; bits shifted past the lane are lost.
pub open spec fn shl_i8(a: i8, n: u32) -> i8
    recommends
        n < 8,
{
    ((a as u8) << n) as i8
}

/// Right shift, logical by convention: the lane is reinterpreted as
/// unsigned, shifted, and reinterpreted back, so zeros are shifted in
/// whatever the sign.
pub open spec fn shr_i8(a: i8, n: u32) -> i8
    recommends
        n < 8,
{
    ((a as u8) >> n) as i8
}

/// One result bit per lane: bit `j` is set exactly when lane `j` is
/// negative, that is, when its top bit is set.  Folded lowest lane first.
pub open spec fn movemask_i8(s: Seq<i8>) -> u32
    decreases s.len(),
{
    if s.len() == 0 {
        0u32
    } else {
        let low = movemask_i8(s.drop_last());
        if s.last() < 0 {
            low | (1u32 << (s.len() - 1) as u32)
        } else {
            low
        }
    }
}

/// Sign-extension of an 8-bit lane to 16 bits.
pub open spec fn widen_i8(v: i8) -> i16 {
    v as i16
}

/// Zero-extension of an 8-bit lane to 16 bits.
pub open spec fn uwiden_i8(v: i8) -> i16 {
    (v as u8) as i16
}

// ---------------------------------------------------------------------------
// 16-bit lanes
// ---------------------------------------------------------------------------

/// Addition wrapping modulo 2^16.
pub open spec fn add_i16(a: i16, b: i16) -> i16 {
    i16_specs::wrapping_add(a, b)
}

/// Subtraction wrapping modulo 2^16.
pub open spec fn sub_i16(a: i16, b: i16) -> i16 {
    i16_specs::wrapping_sub(a, b)
}

/// Multiplication wrapping modulo 2^16.
pub open spec fn mul_i16(a: i16, b: i16) -> i16 {
    i16_specs::wrapping_mul(a, b)
}

pub open spec fn min_i16(a: i16, b: i16) -> i16 {
    if a < b {
        a
    } else {
        b
    }
}

pub open spec fn max_i16(a: i16, b: i16) -> i16 {
    if a > b {
        a
    } else {
        b
    }
}

/// Absolute value, wrapping: the most negative value has no positive
/// counterpart and is its own absolute value, as two's-complement negation
/// leaves it unchanged; nothing traps.
pub open spec fn abs_i16(a: i16) -> i16 {
    if a == i16::MIN {
        a
    } else if a < 0 {
        (0 - a as int) as i16
    } else {
        a
    }
}

/// A comparison lane: all bits set when the comparison holds, all clear
/// otherwise.
pub open spec fn mask_i16(b: bool) -> i16 {
    if b {
        -1i16
    } else {
        0
    }
}

/// Lane selection; see [`blend_i8`].
pub open spec fn blend_i16(a: i16, b: i16, mask: i16) -> i16 {
    if mask == 0 {
        a
    } else {
        b
    }
}

/// Left shift; bits shifted past the lane are lost.
pub open spec fn shl_i16(a: i16, n: u32) -> i16
    recommends
        n < 16,
{
    ((a as u16) << n) as i16
}

/// Logical right shift; see [`shr_i8`].
pub open spec fn shr_i16(a: i16, n: u32) -> i16
    recommends
        n < 16,
{
    ((a as u16) >> n) as i16
}

/// Sign-extension of a 16-bit lane to 32 bits.
pub open spec fn widen_i16(v: i16) -> i32 {
    v as i32
}

/// Zero-extension of a 16-bit lane to 32 bits.
pub open spec fn uwiden_i16(v: i16) -> i32 {
    (v as u16) as i32
}

// ---------------------------------------------------------------------------
// 32-bit lanes
// ---------------------------------------------------------------------------

/// Addition wrapping modulo 2^32.
pub open spec fn add_i32(a: i32, b: i32) -> i32 {
    i32_specs::wrapping_add(a, b)
}

/// Subtraction wrapping modulo 2^32.
pub open spec fn sub_i32(a: i32, b: i32) -> i32 {
    i32_specs::wrapping_sub(a, b)
}

/// Multiplication wrapping modulo 2^32.
pub open spec fn mul_i32(a: i32, b: i32) -> i32 {
    i32_specs::wrapping_mul(a, b)
}

pub open spec fn min_i32(a: i32, b: i32) -> i32 {
    if a < b {
        a
    } else {
        b
    }
}

pub open spec fn max_i32(a: i32, b: i32) -> i32 {
    if a > b {
        a
    } else {
        b
    }
}

/// Absolute value, wrapping: the most negative value has no positive
/// counterpart and is its own absolute value, as two's-complement negation
/// leaves it unchanged; nothing traps.
pub open spec fn abs_i32(a: i32) -> i32 {
    if a == i32::MIN {
        a
    } else if a < 0 {
        (0 - a as int) as i32
    } else {
        a
    }
}

/// A comparison lane: all bits set when the comparison holds, all clear
/// otherwise.
pub open spec fn mask_i32(b: bool) -> i32 {
    if b {
        -1i32
    } else {
        0
    }
}

/// Lane selection; see [`blend_i8`].
pub open spec fn blend_i32(a: i32, b: i32, mask: i32) -> i32 {
    if mask == 0 {
        a
    } else {
        b
    }
}

/// Left shift; bits shifted past the lane are lost.
pub open spec fn shl_i32(a: i32, n: u32) -> i32
    recommends
        n < 32,
{
    ((a as u32) << n) as i32
}

/// Logical right shift; see [`shr_i8`].
pub open spec fn shr_i32(a: i32, n: u32) -> i32
    recommends
        n < 32,
{
    ((a as u32) >> n) as i32
}

/// Sign-extension of a 32-bit lane to 64 bits.
pub open spec fn widen_i32(v: i32) -> i64 {
    v as i64
}

/// Zero-extension of a 32-bit lane to 64 bits.
pub open spec fn uwiden_i32(v: i32) -> i64 {
    (v as u32) as i64
}

// ---------------------------------------------------------------------------
// 64-bit lanes
// ---------------------------------------------------------------------------

/// Addition wrapping modulo 2^64.
pub open spec fn add_i64(a: i64, b: i64) -> i64 {
    i64_specs::wrapping_add(a, b)
}

/// Subtraction wrapping modulo 2^64.
pub open spec fn sub_i64(a: i64, b: i64) -> i64 {
    i64_specs::wrapping_sub(a, b)
}

/// Multiplication wrapping modulo 2^64.
pub open spec fn mul_i64(a: i64, b: i64) -> i64 {
    i64_specs::wrapping_mul(a, b)
}

pub open spec fn min_i64(a: i64, b: i64) -> i64 {
    if a < b {
        a
    } else {
        b
    }
}

pub open spec fn max_i64(a: i64, b: i64) -> i64 {
    if a > b {
        a
    } else {
        b
    }
}

/// Absolute value, wrapping: the most negative value has no positive
/// counterpart and is its own absolute value, as two's-complement negation
/// leaves it unchanged; nothing traps.
pub open spec fn abs_i64(a: i64) -> i64 {
    if a == i64::MIN {
        a
    } else if a < 0 {
        (0 - a as int) as i64
    } else {
        a
    }
}

/// A comparison lane: all bits set when the comparison holds, all clear
/// otherwise.
pub open spec fn mask_i64(b: bool) -> i64 {
    if b {
        -1i64
    } else {
        0
    }
}

/// Lane selection; see [`blend_i8`].
pub open spec fn blend_i64(a: i64, b: i64, mask: i64) -> i64 {
    if mask == 0 {
        a
    } else {
        b
    }
}

/// Left shift; bits shifted past the lane are lost.
pub open spec fn shl_i64(a: i64, n: u32) -> i64
    recommends
        n < 64,
{
    ((a as u64) << n) as i64
}

/// Logical right shift; see [`shr_i8`].
pub open spec fn shr_i64(a: i64, n: u32) -> i64
    recommends
        n < 64,
{
    ((a as u64) >> n) as i64
}

/// The horizontal sum of a sequence of 64-bit lanes, folded left to right
/// with wrapping addition.
pub open spec fn hsum_i64(s: Seq<i64>) -> i64
    decreases s.len(),
{
    if s.len() == 0 {
        0
    } else {
        add_i64(hsum_i64(s.drop_last()), s.last())
    }
}

/// Bitwise complement is exclusive-or with all-ones.
pub proof fn lemma_not_xor_i8(x: i8)
    ensures
        !x == (x ^ -1i8),
{
    assert(!x == (x ^ -1i8)) by (bit_vector);
}

/// Bitwise complement is exclusive-or with all-ones.
pub proof fn lemma_not_xor_i16(x: i16)
    ensures
        !x == (x ^ -1i16),
{
    assert(!x == (x ^ -1i16)) by (bit_vector);
}

/// Bitwise complement is exclusive-or with all-ones.
pub proof fn lemma_not_xor_i32(x: i32)
    ensures
        !x == (x ^ -1i32),
{
    assert(!x == (x ^ -1i32)) by (bit_vector);
}

/// Bitwise complement is exclusive-or with all-ones.
pub proof fn lemma_not_xor_i64(x: i64)
    ensures
        !x == (x ^ -1i64),
{
    assert(!x == (x ^ -1i64)) by (bit_vector);
}

// ---------------------------------------------------------------------------
// The binary kind: a raw 64-bit bag of bits on the scalar engine
// ---------------------------------------------------------------------------

/// Reinterpretation of an 8-bit lane as raw bits (sign-extended into the
/// 64-bit carrier, as a plain integer cast does).
pub open spec fn i8_to_binary(a: i8) -> u64 {
    a as u64
}

/// Reinterpretation of raw bits back as an 8-bit lane (truncating).
pub open spec fn binary_to_i8(x: u64) -> i8 {
    x as i8
}

/// Reinterpretation of a 16-bit lane as raw bits.
pub open spec fn i16_to_binary(a: i16) -> u64 {
    a as u64
}

/// Reinterpretation of raw bits back as a 16-bit lane (truncating).
pub open spec fn binary_to_i16(x: u64) -> i16 {
    x as i16
}

/// Reinterpretation of a 32-bit lane as raw bits.
pub open spec fn i32_to_binary(a: i32) -> u64 {
    a as u64
}

/// Reinterpretation of raw bits back as a 32-bit lane (truncating).
pub open spec fn binary_to_i32(x: u64) -> i32 {
    x as i32
}

/// Reinterpretation of a 64-bit lane as raw bits.
pub open spec fn i64_to_binary(a: i64) -> u64 {
    a as u64
}

/// Reinterpretation of raw bits back as a 64-bit lane.
pub open spec fn binary_to_i64(x: u64) -> i64 {
    x as i64
}

} // verus!
