//! The 8-bit integer entries of the operation table, scalar engine.
//!
//! Each entry's `ensures` ties the result to the lane semantics in
//! [`crate::lanes`]; the wide engines promise the same semantics lane by
//! lane, so the two can never disagree on any input.

use vstd::prelude::*;

use crate::engines::scalar::Scalar;
use crate::lanes;
use crate::ops::Ops;

verus! {

impl Ops<Scalar, i8> {
    /// Addition wrapping modulo 2^8.
    pub fn add(a: i8, b: i8) -> (r: i8)
        ensures
            r == lanes::add_i8(a, b),
    {
        a.wrapping_add(b)
    }

    /// Subtraction wrapping modulo 2^8.
    pub fn sub(a: i8, b: i8) -> (r: i8)
        ensures
            r == lanes::sub_i8(a, b),
    {
        a.wrapping_sub(b)
    }

    /// Multiplication wrapping modulo 2^8.
    pub fn mul(a: i8, b: i8) -> (r: i8)
        ensures
            r == lanes::mul_i8(a, b),
    {
        a.wrapping_mul(b)
    }

    pub fn min(a: i8, b: i8) -> (r: i8)
        ensures
            r == lanes::min_i8(a, b),
    {
        if a < b {
            a
        } else {
            b
        }
    }

    pub fn max(a: i8, b: i8) -> (r: i8)
        ensures
            r == lanes::max_i8(a, b),
    {
        if a > b {
            a
        } else {
            b
        }
    }

    /// Absolute value, wrapping: the most negative value is its own
    /// absolute value, never a trap.
    pub fn abs(a: i8) -> (r: i8)
        ensures
            r == lanes::abs_i8(a),
    {
        if a == i8::MIN {
            a
        } else if a < 0 {
            -a
        } else {
            a
        }
    }

    /// All-ones when equal, all-zeros otherwise.
    pub fn eq(a: i8, b: i8) -> (r: i8)
        ensures
            r == lanes::mask_i8(a == b),
    {
        if a == b {
            -1
        } else {
            0
        }
    }

    /// All-ones when unequal, all-zeros otherwise.
    pub fn neq(a: i8, b: i8) -> (r: i8)
        ensures
            r == lanes::mask_i8(a != b),
    {
        if a != b {
            -1
        } else {
            0
        }
    }

    pub fn lt(a: i8, b: i8) -> (r: i8)
        ensures
            r == lanes::mask_i8(a < b),
    {
        if a < b {
            -1
        } else {
            0
        }
    }

    pub fn lte(a: i8, b: i8) -> (r: i8)
        ensures
            r == lanes::mask_i8(a <= b),
    {
        if a <= b {
            -1
        } else {
            0
        }
    }

    pub fn gt(a: i8, b: i8) -> (r: i8)
        ensures
            r == lanes::mask_i8(a > b),
    {
        if a > b {
            -1
        } else {
            0
        }
    }

    pub fn gte(a: i8, b: i8) -> (r: i8)
        ensures
            r == lanes::mask_i8(a >= b),
    {
        if a >= b {
            -1
        } else {
            0
        }
    }

    /// Selection by mask: a zero mask keeps `a`, any nonzero mask takes `b`.
    pub fn blendv(a: i8, b: i8, mask: i8) -> (r: i8)
        ensures
            r == lanes::blend_i8(a, b, mask),
    {
        if mask == 0 {
            a
        } else {
            b
        }
    }

    /// Left shift by a lane-wide count.
    pub fn shl(a: i8, rhs: i32) -> (r: i8)
        requires
            0 <= rhs < 8,
        ensures
            r == lanes::shl_i8(a, rhs as u32),
    {
        ((((a as u8) << (rhs as u32)) as i8))
    }

    /// Right shift, logical by convention: the lane is reinterpreted as
    /// unsigned, shifted, and reinterpreted back.
    pub fn shr(a: i8, rhs: i32) -> (r: i8)
        requires
            0 <= rhs < 8,
        ensures
            r == lanes::shr_i8(a, rhs as u32),
    {
        ((((a as u8) >> (rhs as u32)) as i8))
    }

    /// Left shift by a compile-time count; the same semantics as
    /// [`Self::shl`].
    pub fn shl_const<const BY: u32>(a: i8) -> (r: i8)
        requires
            BY < 8,
        ensures
            r == lanes::shl_i8(a, BY),
    {
        Self::shl(a, BY as i32)
    }

    /// Logical right shift by a compile-time count; the same semantics as
    /// [`Self::shr`].
    pub fn shr_const<const BY: u32>(a: i8) -> (r: i8)
        requires
            BY < 8,
        ensures
            r == lanes::shr_i8(a, BY),
    {
        Self::shr(a, BY as i32)
    }

    /// Sign-extension to the next lane width; the width-1 engine widens its
    /// single lane and returns zero as the degenerate upper half.
    pub fn extend_i16(val: i8) -> (r: (i16, i16))
        ensures
            r.0 == lanes::widen_i8(val),
            r.1 == 0i16,
    {
        (val as i16, 0)
    }

    /// Zero-extension to the next lane width; see [`Self::extend_i16`].
    pub fn unsigned_extend_i16(val: i8) -> (r: (i16, i16))
        ensures
            r.0 == lanes::uwiden_i8(val),
            r.1 == 0i16,
    {
        ((val as u8) as i16, 0)
    }

    pub fn zeroes() -> (r: i8)
        ensures
            r == 0i8,
    {
        0
    }

    pub fn set1(val: i8) -> (r: i8)
        ensures
            r == val,
    {
        val
    }

    /// One mask bit from one lane: the low bit of the lane's bit pattern.
    pub fn get_mask(val: i8) -> (r: u32)
        ensures
            r == ((val as u8) as u32) & 1,
    {
        (((val as u8) as u32) & 1)
    }

    /// Whether the lane is nonzero.
    pub fn is_truthy(a: i8) -> (r: bool)
        ensures
            r == (a != 0i8),
    {
        a != 0
    }

}

} // verus!
