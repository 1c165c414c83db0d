//! The 32-bit integer entries of the operation table, scalar engine.
//!
//! Each entry's `ensures` ties the result to the lane semantics in
//! [`crate::lanes`]; the wide engines promise the same semantics lane by
//! lane, so the two can never disagree on any input.

use vstd::prelude::*;

use crate::engines::scalar::Scalar;
use crate::lanes;
use crate::ops::Ops;

verus! {

impl Ops<Scalar, i32> {
    /// Addition wrapping modulo 2^32.
    pub fn add(a: i32, b: i32) -> (r: i32)
        ensures
            r == lanes::add_i32(a, b),
    {
        a.wrapping_add(b)
    }

    /// Subtraction wrapping modulo 2^32.
    pub fn sub(a: i32, b: i32) -> (r: i32)
        ensures
            r == lanes::sub_i32(a, b),
    {
        a.wrapping_sub(b)
    }

    /// Multiplication wrapping modulo 2^32.
    pub fn mul(a: i32, b: i32) -> (r: i32)
        ensures
            r == lanes::mul_i32(a, b),
    {
        a.wrapping_mul(b)
    }

    pub fn min(a: i32, b: i32) -> (r: i32)
        ensures
            r == lanes::min_i32(a, b),
    {
        if a < b {
            a
        } else {
            b
        }
    }

    pub fn max(a: i32, b: i32) -> (r: i32)
        ensures
            r == lanes::max_i32(a, b),
    {
        if a > b {
            a
        } else {
            b
        }
    }

    /// Absolute value, wrapping: the most negative value is its own
    /// absolute value, never a trap.
    pub fn abs(a: i32) -> (r: i32)
        ensures
            r == lanes::abs_i32(a),
    {
        if a == i32::MIN {
            a
        } else if a < 0 {
            -a
        } else {
            a
        }
    }

    /// All-ones when equal, all-zeros otherwise.
    pub fn eq(a: i32, b: i32) -> (r: i32)
        ensures
            r == lanes::mask_i32(a == b),
    {
        if a == b {
            -1
        } else {
            0
        }
    }

    /// All-ones when unequal, all-zeros otherwise.
    pub fn neq(a: i32, b: i32) -> (r: i32)
        ensures
            r == lanes::mask_i32(a != b),
    {
        if a != b {
            -1
        } else {
            0
        }
    }

    pub fn lt(a: i32, b: i32) -> (r: i32)
        ensures
            r == lanes::mask_i32(a < b),
    {
        if a < b {
            -1
        } else {
            0
        }
    }

    pub fn lte(a: i32, b: i32) -> (r: i32)
        ensures
            r == lanes::mask_i32(a <= b),
    {
        if a <= b {
            -1
        } else {
            0
        }
    }

    pub fn gt(a: i32, b: i32) -> (r: i32)
        ensures
            r == lanes::mask_i32(a > b),
    {
        if a > b {
            -1
        } else {
            0
        }
    }

    pub fn gte(a: i32, b: i32) -> (r: i32)
        ensures
            r == lanes::mask_i32(a >= b),
    {
        if a >= b {
            -1
        } else {
            0
        }
    }

    /// Selection by mask: a zero mask keeps `a`, any nonzero mask takes `b`.
    pub fn blendv(a: i32, b: i32, mask: i32) -> (r: i32)
        ensures
            r == lanes::blend_i32(a, b, mask),
    {
        if mask == 0 {
            a
        } else {
            b
        }
    }

    /// Left shift by a lane-wide count.
    pub fn shl(a: i32, rhs: i32) -> (r: i32)
        requires
            0 <= rhs < 32,
        ensures
            r == lanes::shl_i32(a, rhs as u32),
    {
        (((a as u32) << (rhs as u32)) as i32)
    }

    /// Right shift, logical by convention: the lane is reinterpreted as
    /// unsigned, shifted, and reinterpreted back.
    pub fn shr(a: i32, rhs: i32) -> (r: i32)
        requires
            0 <= rhs < 32,
        ensures
            r == lanes::shr_i32(a, rhs as u32),
    {
        (((a as u32) >> (rhs as u32)) as i32)
    }

    /// Left shift by a compile-time count; the same semantics as
    /// [`Self::shl`].
    pub fn shl_const<const BY: u32>(a: i32) -> (r: i32)
        requires
            BY < 32,
        ensures
            r == lanes::shl_i32(a, BY),
    {
        Self::shl(a, BY as i32)
    }

    /// Logical right shift by a compile-time count; the same semantics as
    /// [`Self::shr`].
    pub fn shr_const<const BY: u32>(a: i32) -> (r: i32)
        requires
            BY < 32,
        ensures
            r == lanes::shr_i32(a, BY),
    {
        Self::shr(a, BY as i32)
    }

    /// Sign-extension to the next lane width; the width-1 engine widens its
    /// single lane and returns zero as the degenerate upper half.
    pub fn extend_i64(val: i32) -> (r: (i64, i64))
        ensures
            r.0 == lanes::widen_i32(val),
            r.1 == 0i64,
    {
        (val as i64, 0)
    }

    /// Zero-extension to the next lane width; see [`Self::extend_i64`].
    pub fn unsigned_extend_i64(val: i32) -> (r: (i64, i64))
        ensures
            r.0 == lanes::uwiden_i32(val),
            r.1 == 0i64,
    {
        ((val as u32) as i64, 0)
    }

    pub fn zeroes() -> (r: i32)
        ensures
            r == 0i32,
    {
        0
    }

    pub fn set1(val: i32) -> (r: i32)
        ensures
            r == val,
    {
        val
    }
}

} // verus!
