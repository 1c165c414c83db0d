//! The 16-bit integer entries of the operation table, scalar engine.
//!
//! Each entry's `ensures` ties the result to the lane semantics in
//! [`crate::lanes`]; the wide engines promise the same semantics lane by
//! lane, so the two can never disagree on any input.

use vstd::prelude::*;

use crate::engines::scalar::Scalar;
use crate::lanes;
use crate::ops::Ops;

verus! {

impl Ops<Scalar, i16> {
    /// Addition wrapping modulo 2^16.
    pub fn add(a: i16, b: i16) -> (r: i16)
        ensures
            r == lanes::add_i16(a, b),
    {
        a.wrapping_add(b)
    }

    /// Subtraction wrapping modulo 2^16.
    pub fn sub(a: i16, b: i16) -> (r: i16)
        ensures
            r == lanes::sub_i16(a, b),
    {
        a.wrapping_sub(b)
    }

    /// Multiplication wrapping modulo 2^16.
    pub fn mul(a: i16, b: i16) -> (r: i16)
        ensures
            r == lanes::mul_i16(a, b),
    {
        a.wrapping_mul(b)
    }

    pub fn min(a: i16, b: i16) -> (r: i16)
        ensures
            r == lanes::min_i16(a, b),
    {
        if a < b {
            a
        } else {
            b
        }
    }

    pub fn max(a: i16, b: i16) -> (r: i16)
        ensures
            r == lanes::max_i16(a, b),
    {
        if a > b {
            a
        } else {
            b
        }
    }

    /// Absolute value, wrapping: the most negative value is its own
    /// absolute value, never a trap.
    pub fn abs(a: i16) -> (r: i16)
        ensures
            r == lanes::abs_i16(a),
    {
        if a == i16::MIN {
            a
        } else if a < 0 {
            -a
        } else {
            a
        }
    }

    /// All-ones when equal, all-zeros otherwise.
    pub fn eq(a: i16, b: i16) -> (r: i16)
        ensures
            r == lanes::mask_i16(a == b),
    {
        if a == b {
            -1
        } else {
            0
        }
    }

    /// All-ones when unequal, all-zeros otherwise.
    pub fn neq(a: i16, b: i16) -> (r: i16)
        ensures
            r == lanes::mask_i16(a != b),
    {
        if a != b {
            -1
        } else {
            0
        }
    }

    pub fn lt(a: i16, b: i16) -> (r: i16)
        ensures
            r == lanes::mask_i16(a < b),
    {
        if a < b {
            -1
        } else {
            0
        }
    }

    pub fn lte(a: i16, b: i16) -> (r: i16)
        ensures
            r == lanes::mask_i16(a <= b),
    {
        if a <= b {
            -1
        } else {
            0
        }
    }

    pub fn gt(a: i16, b: i16) -> (r: i16)
        ensures
            r == lanes::mask_i16(a > b),
    {
        if a > b {
            -1
        } else {
            0
        }
    }

    pub fn gte(a: i16, b: i16) -> (r: i16)
        ensures
            r == lanes::mask_i16(a >= b),
    {
        if a >= b {
            -1
        } else {
            0
        }
    }

    /// Selection by mask: a zero mask keeps `a`, any nonzero mask takes `b`.
    pub fn blendv(a: i16, b: i16, mask: i16) -> (r: i16)
        ensures
            r == lanes::blend_i16(a, b, mask),
    {
        if mask == 0 {
            a
        } else {
            b
        }
    }

    /// Left shift by a lane-wide count.
    pub fn shl(a: i16, rhs: i32) -> (r: i16)
        requires
            0 <= rhs < 16,
        ensures
            r == lanes::shl_i16(a, rhs as u32),
    {
        ((((a as u16) << (rhs as u32)) as i16))
    }

    /// Right shift, logical by convention: the lane is reinterpreted as
    /// unsigned, shifted, and reinterpreted back.
    pub fn shr(a: i16, rhs: i32) -> (r: i16)
        requires
            0 <= rhs < 16,
        ensures
            r == lanes::shr_i16(a, rhs as u32),
    {
        ((((a as u16) >> (rhs as u32)) as i16))
    }

    /// Left shift by a compile-time count; the same semantics as
    /// [`Self::shl`].
    pub fn shl_const<const BY: u32>(a: i16) -> (r: i16)
        requires
            BY < 16,
        ensures
            r == lanes::shl_i16(a, BY),
    {
        Self::shl(a, BY as i32)
    }

    /// Logical right shift by a compile-time count; the same semantics as
    /// [`Self::shr`].
    pub fn shr_const<const BY: u32>(a: i16) -> (r: i16)
        requires
            BY < 16,
        ensures
            r == lanes::shr_i16(a, BY),
    {
        Self::shr(a, BY as i32)
    }

    /// Sign-extension to the next lane width; the width-1 engine widens its
    /// single lane and returns zero as the degenerate upper half.
    pub fn extend_i32(val: i16) -> (r: (i32, i32))
        ensures
            r.0 == lanes::widen_i16(val),
            r.1 == 0i32,
    {
        (val as i32, 0)
    }

    /// Zero-extension to the next lane width; see [`Self::extend_i32`].
    pub fn unsigned_extend_i32(val: i16) -> (r: (i32, i32))
        ensures
            r.0 == lanes::uwiden_i16(val),
            r.1 == 0i32,
    {
        ((val as u16) as i32, 0)
    }

    pub fn zeroes() -> (r: i16)
        ensures
            r == 0i16,
    {
        0
    }

    pub fn set1(val: i16) -> (r: i16)
        ensures
            r == val,
    {
        val
    }
}

} // verus!
