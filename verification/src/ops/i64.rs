//! The 64-bit integer entries of the operation table, scalar engine.
//!
//! Each entry's `ensures` ties the result to the lane semantics in
//! [`crate::lanes`]; the wide engines promise the same semantics lane by
//! lane, so the two can never disagree on any input.

use vstd::prelude::*;

use crate::engines::scalar::Scalar;
use crate::lanes;
use crate::ops::Ops;

verus! {

impl Ops<Scalar, i64> {
    /// Addition wrapping modulo 2^64.
    pub fn add(a: i64, b: i64) -> (r: i64)
        ensures
            r == lanes::add_i64(a, b),
    {
        a.wrapping_add(b)
    }

    /// Subtraction wrapping modulo 2^64.
    pub fn sub(a: i64, b: i64) -> (r: i64)
        ensures
            r == lanes::sub_i64(a, b),
    {
        a.wrapping_sub(b)
    }

    /// Multiplication wrapping modulo 2^64.
    pub fn mul(a: i64, b: i64) -> (r: i64)
        ensures
            r == lanes::mul_i64(a, b),
    {
        a.wrapping_mul(b)
    }

    pub fn min(a: i64, b: i64) -> (r: i64)
        ensures
            r == lanes::min_i64(a, b),
    {
        if a < b {
            a
        } else {
            b
        }
    }

    pub fn max(a: i64, b: i64) -> (r: i64)
        ensures
            r == lanes::max_i64(a, b),
    {
        if a > b {
            a
        } else {
            b
        }
    }

    /// Absolute value, wrapping: the most negative value is its own
    /// absolute value, never a trap.
    pub fn abs(a: i64) -> (r: i64)
        ensures
            r == lanes::abs_i64(a),
    {
        if a == i64::MIN {
            a
        } else if a < 0 {
            -a
        } else {
            a
        }
    }

    /// All-ones when equal, all-zeros otherwise.
    pub fn eq(a: i64, b: i64) -> (r: i64)
        ensures
            r == lanes::mask_i64(a == b),
    {
        if a == b {
            -1
        } else {
            0
        }
    }

    /// All-ones when unequal, all-zeros otherwise.
    pub fn neq(a: i64, b: i64) -> (r: i64)
        ensures
            r == lanes::mask_i64(a != b),
    {
        if a != b {
            -1
        } else {
            0
        }
    }

    pub fn lt(a: i64, b: i64) -> (r: i64)
        ensures
            r == lanes::mask_i64(a < b),
    {
        if a < b {
            -1
        } else {
            0
        }
    }

    pub fn lte(a: i64, b: i64) -> (r: i64)
        ensures
            r == lanes::mask_i64(a <= b),
    {
        if a <= b {
            -1
        } else {
            0
        }
    }

    pub fn gt(a: i64, b: i64) -> (r: i64)
        ensures
            r == lanes::mask_i64(a > b),
    {
        if a > b {
            -1
        } else {
            0
        }
    }

    pub fn gte(a: i64, b: i64) -> (r: i64)
        ensures
            r == lanes::mask_i64(a >= b),
    {
        if a >= b {
            -1
        } else {
            0
        }
    }

    /// Selection by mask: a zero mask keeps `a`, any nonzero mask takes `b`.
    pub fn blendv(a: i64, b: i64, mask: i64) -> (r: i64)
        ensures
            r == lanes::blend_i64(a, b, mask),
    {
        if mask == 0 {
            a
        } else {
            b
        }
    }

    /// Left shift by a lane-wide count.
    pub fn shl(a: i64, rhs: i32) -> (r: i64)
        requires
            0 <= rhs < 64,
        ensures
            r == lanes::shl_i64(a, rhs as u32),
    {
        ((((a as u64) << (rhs as u32)) as i64))
    }

    /// Right shift, logical by convention: the lane is reinterpreted as
    /// unsigned, shifted, and reinterpreted back.
    pub fn shr(a: i64, rhs: i32) -> (r: i64)
        requires
            0 <= rhs < 64,
        ensures
            r == lanes::shr_i64(a, rhs as u32),
    {
        ((((a as u64) >> (rhs as u32)) as i64))
    }

    pub fn zeroes() -> (r: i64)
        ensures
            r == 0i64,
    {
        0
    }

    pub fn set1(val: i64) -> (r: i64)
        ensures
            r == val,
    {
        val
    }

    /// Left shift by a compile-time count; the same semantics as
    /// [`Self::shl`].
    pub fn shl_const<const BY: u32>(a: i64) -> (r: i64)
        requires
            BY < 64,
        ensures
            r == lanes::shl_i64(a, BY),
    {
        Self::shl(a, BY as i32)
    }

    /// Logical right shift by a compile-time count; the same semantics as
    /// [`Self::shr`].
    pub fn shr_const<const BY: u32>(a: i64) -> (r: i64)
        requires
            BY < 64,
        ensures
            r == lanes::shr_i64(a, BY),
    {
        Self::shr(a, BY as i32)
    }

    /// The horizontal reduction of a width-1 vector: the identity.
    pub fn horizontal_add(val: i64) -> (r: i64)
        ensures
            r == val,
    {
        val
    }

}

} // verus!
