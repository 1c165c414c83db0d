//! The scalar engine: the width-1 reference back end.
//!
//! Its "vector" of any kind is a single lane, so it runs everywhere and
//! serves as the baseline the wide engines are held to.  `invoke` is a
//! plain passthrough: no hardware feature is needed.

use vstd::prelude::*;

use crate::base::{SimdInt16, SimdInt32, SimdInt64, SimdInt8};
use crate::lanes;
use crate::ops::Ops;
use crate::Simd;

verus! {

/// The scalar engine tag.
pub struct Scalar;

impl Simd for Scalar {
    type Vi8 = I8x1;

    type Vi16 = I16x1;

    type Vi32 = I32x1;

    type Vi64 = I64x1;

    fn invoke<R, F: FnOnce() -> R>(f: F) -> R {
        f()
    }
}

/// One 8-bit lane, standing in for a width-1 vector.
#[derive(Clone, Copy, Debug)]
pub struct I8x1 {
    pub value: i8,
}

impl SimdInt8 for I8x1 {
    open spec fn lanes(&self) -> Seq<i8> {
        seq![self.value]
    }

    open spec fn wf(&self) -> bool {
        true
    }

    open spec fn spec_width() -> nat {
        1
    }

    proof fn lemma_wf(&self) {
    }

    fn width() -> usize {
        1
    }

    fn zeroes() -> Self {
        I8x1 { value: Ops::<Scalar, i8>::zeroes() }
    }

    fn set1(val: i8) -> Self {
        I8x1 { value: Ops::<Scalar, i8>::set1(val) }
    }

    fn load_unaligned(src: &Vec<i8>, offset: usize) -> Self {
        let value = src[offset];
        proof {
            assert(seq![value] =~= src@.subrange(offset as int, offset as int + 1));
        }
        I8x1 { value }
    }

    fn store_unaligned(&self, dst: &mut Vec<i8>, offset: usize) {
        dst.set(offset, self.value);
    }

    fn load_aligned(src: &Vec<i8>, offset: usize) -> Self {
        Self::load_unaligned(src, offset)
    }

    fn store_aligned(&self, dst: &mut Vec<i8>, offset: usize) {
        self.store_unaligned(dst, offset);
    }

    fn get_lane(&self, i: usize) -> i8 {
        self.value
    }

    fn set_lane(&mut self, i: usize, val: i8) {
        self.value = val;
        proof {
            assert(self.lanes() =~= old(self).lanes().update(i as int, val));
        }
    }

    fn add(&self, o: &Self) -> Self {
        I8x1 { value: Ops::<Scalar, i8>::add(self.value, o.value) }
    }

    fn sub(&self, o: &Self) -> Self {
        I8x1 { value: Ops::<Scalar, i8>::sub(self.value, o.value) }
    }

    fn mul(&self, o: &Self) -> Self {
        I8x1 { value: Ops::<Scalar, i8>::mul(self.value, o.value) }
    }

    fn min(&self, o: &Self) -> Self {
        I8x1 { value: Ops::<Scalar, i8>::min(self.value, o.value) }
    }

    fn max(&self, o: &Self) -> Self {
        I8x1 { value: Ops::<Scalar, i8>::max(self.value, o.value) }
    }

    fn eq(&self, o: &Self) -> Self {
        I8x1 { value: Ops::<Scalar, i8>::eq(self.value, o.value) }
    }

    fn neq(&self, o: &Self) -> Self {
        I8x1 { value: Ops::<Scalar, i8>::neq(self.value, o.value) }
    }

    fn lt(&self, o: &Self) -> Self {
        I8x1 { value: Ops::<Scalar, i8>::lt(self.value, o.value) }
    }

    fn lte(&self, o: &Self) -> Self {
        I8x1 { value: Ops::<Scalar, i8>::lte(self.value, o.value) }
    }

    fn gt(&self, o: &Self) -> Self {
        I8x1 { value: Ops::<Scalar, i8>::gt(self.value, o.value) }
    }

    fn gte(&self, o: &Self) -> Self {
        I8x1 { value: Ops::<Scalar, i8>::gte(self.value, o.value) }
    }

    fn abs(&self) -> Self {
        I8x1 { value: Ops::<Scalar, i8>::abs(self.value) }
    }

    fn blendv(&self, o: &Self, mask: &Self) -> Self {
        I8x1 { value: Ops::<Scalar, i8>::blendv(self.value, o.value, mask.value) }
    }

    fn shl(&self, rhs: i32) -> Self {
        I8x1 { value: Ops::<Scalar, i8>::shl(self.value, rhs) }
    }

    fn shr(&self, rhs: i32) -> Self {
        I8x1 { value: Ops::<Scalar, i8>::shr(self.value, rhs) }
    }

    fn bit_and(&self, o: &Self) -> Self {
        I8x1 { value: self.value & o.value }
    }

    fn bit_or(&self, o: &Self) -> Self {
        I8x1 { value: self.value | o.value }
    }

    fn bit_xor(&self, o: &Self) -> Self {
        I8x1 { value: self.value ^ o.value }
    }

    fn bit_not(&self) -> Self {
        proof {
            lanes::lemma_not_xor_i8(self.value);
        }
        I8x1 { value: self.value ^ -1i8 }
    }

    fn bit_andnot(&self, o: &Self) -> Self {
        proof {
            lanes::lemma_not_xor_i8(self.value);
        }
        I8x1 { value: (self.value ^ -1i8) & o.value }
    }

    fn get_mask(&self) -> u32 {
        let r = Ops::<Scalar, i8>::get_mask(self.value);
        proof {
            assert(self.lanes()[0] == 0i8 || self.lanes()[0] == -1i8);
            reveal_with_fuel(lanes::movemask_i8, 2);
            assert(self.lanes().drop_last() =~= Seq::<i8>::empty());
            if self.value == -1i8 {
                assert(((-1i8 as u8) as u32) & 1 == 1u32) by (bit_vector);
                assert(0u32 | (1u32 << 0u32) == 1u32) by (bit_vector);
            } else {
                assert(((0i8 as u8) as u32) & 1 == 0u32) by (bit_vector);
            }
        }
        r
    }

    fn is_truthy(&self) -> bool {
        let r = Ops::<Scalar, i8>::is_truthy(self.value);
        proof {
            if self.value != 0i8 {
                assert(self.lanes()[0] != 0i8);
            }
        }
        r
    }
}

impl I8x1 {
    /// Sign-extension of the single lane to 16 bits; the degenerate
    /// upper half of the pair is zero.
    pub fn extend_i16(&self) -> (r: (I16x1, I16x1))
        requires
            self.wf(),
        ensures
            r.0.wf(),
            r.1.wf(),
            r.0.lanes().len() == 1,
            r.1.lanes().len() == 1,
            r.0.lanes()[0] == lanes::widen_i8(self.lanes()[0]),
            r.1.lanes()[0] == 0i16,
    {
        let (lo, hi) = Ops::<Scalar, i8>::extend_i16(self.value);
        (I16x1 { value: lo }, I16x1 { value: hi })
    }

    /// Zero-extension of the single lane to 16 bits; see
    /// [`Self::extend_i16`].
    pub fn unsigned_extend_i16(&self) -> (r: (I16x1, I16x1))
        requires
            self.wf(),
        ensures
            r.0.wf(),
            r.1.wf(),
            r.0.lanes().len() == 1,
            r.1.lanes().len() == 1,
            r.0.lanes()[0] == lanes::uwiden_i8(self.lanes()[0]),
            r.1.lanes()[0] == 0i16,
    {
        let (lo, hi) = Ops::<Scalar, i8>::unsigned_extend_i16(self.value);
        (I16x1 { value: lo }, I16x1 { value: hi })
    }
}

/// One 16-bit lane, standing in for a width-1 vector.
#[derive(Clone, Copy, Debug)]
pub struct I16x1 {
    pub value: i16,
}

impl SimdInt16 for I16x1 {
    open spec fn lanes(&self) -> Seq<i16> {
        seq![self.value]
    }

    open spec fn wf(&self) -> bool {
        true
    }

    open spec fn spec_width() -> nat {
        1
    }

    proof fn lemma_wf(&self) {
    }

    fn width() -> usize {
        1
    }

    fn zeroes() -> Self {
        I16x1 { value: Ops::<Scalar, i16>::zeroes() }
    }

    fn set1(val: i16) -> Self {
        I16x1 { value: Ops::<Scalar, i16>::set1(val) }
    }

    fn load_unaligned(src: &Vec<i16>, offset: usize) -> Self {
        let value = src[offset];
        proof {
            assert(seq![value] =~= src@.subrange(offset as int, offset as int + 1));
        }
        I16x1 { value }
    }

    fn store_unaligned(&self, dst: &mut Vec<i16>, offset: usize) {
        dst.set(offset, self.value);
    }

    fn load_aligned(src: &Vec<i16>, offset: usize) -> Self {
        Self::load_unaligned(src, offset)
    }

    fn store_aligned(&self, dst: &mut Vec<i16>, offset: usize) {
        self.store_unaligned(dst, offset);
    }

    fn get_lane(&self, i: usize) -> i16 {
        self.value
    }

    fn set_lane(&mut self, i: usize, val: i16) {
        self.value = val;
        proof {
            assert(self.lanes() =~= old(self).lanes().update(i as int, val));
        }
    }

    fn add(&self, o: &Self) -> Self {
        I16x1 { value: Ops::<Scalar, i16>::add(self.value, o.value) }
    }

    fn sub(&self, o: &Self) -> Self {
        I16x1 { value: Ops::<Scalar, i16>::sub(self.value, o.value) }
    }

    fn mul(&self, o: &Self) -> Self {
        I16x1 { value: Ops::<Scalar, i16>::mul(self.value, o.value) }
    }

    fn min(&self, o: &Self) -> Self {
        I16x1 { value: Ops::<Scalar, i16>::min(self.value, o.value) }
    }

    fn max(&self, o: &Self) -> Self {
        I16x1 { value: Ops::<Scalar, i16>::max(self.value, o.value) }
    }

    fn eq(&self, o: &Self) -> Self {
        I16x1 { value: Ops::<Scalar, i16>::eq(self.value, o.value) }
    }

    fn neq(&self, o: &Self) -> Self {
        I16x1 { value: Ops::<Scalar, i16>::neq(self.value, o.value) }
    }

    fn lt(&self, o: &Self) -> Self {
        I16x1 { value: Ops::<Scalar, i16>::lt(self.value, o.value) }
    }

    fn lte(&self, o: &Self) -> Self {
        I16x1 { value: Ops::<Scalar, i16>::lte(self.value, o.value) }
    }

    fn gt(&self, o: &Self) -> Self {
        I16x1 { value: Ops::<Scalar, i16>::gt(self.value, o.value) }
    }

    fn gte(&self, o: &Self) -> Self {
        I16x1 { value: Ops::<Scalar, i16>::gte(self.value, o.value) }
    }

    fn abs(&self) -> Self {
        I16x1 { value: Ops::<Scalar, i16>::abs(self.value) }
    }

    fn blendv(&self, o: &Self, mask: &Self) -> Self {
        I16x1 { value: Ops::<Scalar, i16>::blendv(self.value, o.value, mask.value) }
    }

    fn shl(&self, rhs: i32) -> Self {
        I16x1 { value: Ops::<Scalar, i16>::shl(self.value, rhs) }
    }

    fn shr(&self, rhs: i32) -> Self {
        I16x1 { value: Ops::<Scalar, i16>::shr(self.value, rhs) }
    }

    fn bit_and(&self, o: &Self) -> Self {
        I16x1 { value: self.value & o.value }
    }

    fn bit_or(&self, o: &Self) -> Self {
        I16x1 { value: self.value | o.value }
    }

    fn bit_xor(&self, o: &Self) -> Self {
        I16x1 { value: self.value ^ o.value }
    }

    fn bit_not(&self) -> Self {
        proof {
            lanes::lemma_not_xor_i16(self.value);
        }
        I16x1 { value: self.value ^ -1i16 }
    }

    fn bit_andnot(&self, o: &Self) -> Self {
        proof {
            lanes::lemma_not_xor_i16(self.value);
        }
        I16x1 { value: (self.value ^ -1i16) & o.value }
    }
}

impl I16x1 {
    /// Sign-extension of the single lane to 32 bits; the degenerate
    /// upper half of the pair is zero.
    pub fn extend_i32(&self) -> (r: (I32x1, I32x1))
        requires
            self.wf(),
        ensures
            r.0.wf(),
            r.1.wf(),
            r.0.lanes().len() == 1,
            r.1.lanes().len() == 1,
            r.0.lanes()[0] == lanes::widen_i16(self.lanes()[0]),
            r.1.lanes()[0] == 0i32,
    {
        let (lo, hi) = Ops::<Scalar, i16>::extend_i32(self.value);
        (I32x1 { value: lo }, I32x1 { value: hi })
    }

    /// Zero-extension of the single lane to 32 bits; see
    /// [`Self::extend_i32`].
    pub fn unsigned_extend_i32(&self) -> (r: (I32x1, I32x1))
        requires
            self.wf(),
        ensures
            r.0.wf(),
            r.1.wf(),
            r.0.lanes().len() == 1,
            r.1.lanes().len() == 1,
            r.0.lanes()[0] == lanes::uwiden_i16(self.lanes()[0]),
            r.1.lanes()[0] == 0i32,
    {
        let (lo, hi) = Ops::<Scalar, i16>::unsigned_extend_i32(self.value);
        (I32x1 { value: lo }, I32x1 { value: hi })
    }
}

/// One 32-bit lane, standing in for a width-1 vector.
#[derive(Clone, Copy, Debug)]
pub struct I32x1 {
    pub value: i32,
}

impl SimdInt32 for I32x1 {
    open spec fn lanes(&self) -> Seq<i32> {
        seq![self.value]
    }

    open spec fn wf(&self) -> bool {
        true
    }

    open spec fn spec_width() -> nat {
        1
    }

    proof fn lemma_wf(&self) {
    }

    fn width() -> usize {
        1
    }

    fn zeroes() -> Self {
        I32x1 { value: Ops::<Scalar, i32>::zeroes() }
    }

    fn set1(val: i32) -> Self {
        I32x1 { value: Ops::<Scalar, i32>::set1(val) }
    }

    fn load_unaligned(src: &Vec<i32>, offset: usize) -> Self {
        let value = src[offset];
        proof {
            assert(seq![value] =~= src@.subrange(offset as int, offset as int + 1));
        }
        I32x1 { value }
    }

    fn store_unaligned(&self, dst: &mut Vec<i32>, offset: usize) {
        dst.set(offset, self.value);
    }

    fn load_aligned(src: &Vec<i32>, offset: usize) -> Self {
        Self::load_unaligned(src, offset)
    }

    fn store_aligned(&self, dst: &mut Vec<i32>, offset: usize) {
        self.store_unaligned(dst, offset);
    }

    fn get_lane(&self, i: usize) -> i32 {
        self.value
    }

    fn set_lane(&mut self, i: usize, val: i32) {
        self.value = val;
        proof {
            assert(self.lanes() =~= old(self).lanes().update(i as int, val));
        }
    }

    fn add(&self, o: &Self) -> Self {
        I32x1 { value: Ops::<Scalar, i32>::add(self.value, o.value) }
    }

    fn sub(&self, o: &Self) -> Self {
        I32x1 { value: Ops::<Scalar, i32>::sub(self.value, o.value) }
    }

    fn mul(&self, o: &Self) -> Self {
        I32x1 { value: Ops::<Scalar, i32>::mul(self.value, o.value) }
    }

    fn min(&self, o: &Self) -> Self {
        I32x1 { value: Ops::<Scalar, i32>::min(self.value, o.value) }
    }

    fn max(&self, o: &Self) -> Self {
        I32x1 { value: Ops::<Scalar, i32>::max(self.value, o.value) }
    }

    fn eq(&self, o: &Self) -> Self {
        I32x1 { value: Ops::<Scalar, i32>::eq(self.value, o.value) }
    }

    fn neq(&self, o: &Self) -> Self {
        I32x1 { value: Ops::<Scalar, i32>::neq(self.value, o.value) }
    }

    fn lt(&self, o: &Self) -> Self {
        I32x1 { value: Ops::<Scalar, i32>::lt(self.value, o.value) }
    }

    fn lte(&self, o: &Self) -> Self {
        I32x1 { value: Ops::<Scalar, i32>::lte(self.value, o.value) }
    }

    fn gt(&self, o: &Self) -> Self {
        I32x1 { value: Ops::<Scalar, i32>::gt(self.value, o.value) }
    }

    fn gte(&self, o: &Self) -> Self {
        I32x1 { value: Ops::<Scalar, i32>::gte(self.value, o.value) }
    }

    fn abs(&self) -> Self {
        I32x1 { value: Ops::<Scalar, i32>::abs(self.value) }
    }

    fn blendv(&self, o: &Self, mask: &Self) -> Self {
        I32x1 { value: Ops::<Scalar, i32>::blendv(self.value, o.value, mask.value) }
    }

    fn shl(&self, rhs: i32) -> Self {
        I32x1 { value: Ops::<Scalar, i32>::shl(self.value, rhs) }
    }

    fn shr(&self, rhs: i32) -> Self {
        I32x1 { value: Ops::<Scalar, i32>::shr(self.value, rhs) }
    }

    fn bit_and(&self, o: &Self) -> Self {
        I32x1 { value: self.value & o.value }
    }

    fn bit_or(&self, o: &Self) -> Self {
        I32x1 { value: self.value | o.value }
    }

    fn bit_xor(&self, o: &Self) -> Self {
        I32x1 { value: self.value ^ o.value }
    }

    fn bit_not(&self) -> Self {
        proof {
            lanes::lemma_not_xor_i32(self.value);
        }
        I32x1 { value: self.value ^ -1i32 }
    }

    fn bit_andnot(&self, o: &Self) -> Self {
        proof {
            lanes::lemma_not_xor_i32(self.value);
        }
        I32x1 { value: (self.value ^ -1i32) & o.value }
    }
}

impl I32x1 {
    /// Sign-extension of the single lane to 64 bits; the degenerate
    /// upper half of the pair is zero.
    pub fn extend_i64(&self) -> (r: (I64x1, I64x1))
        requires
            self.wf(),
        ensures
            r.0.wf(),
            r.1.wf(),
            r.0.lanes().len() == 1,
            r.1.lanes().len() == 1,
            r.0.lanes()[0] == lanes::widen_i32(self.lanes()[0]),
            r.1.lanes()[0] == 0i64,
    {
        let (lo, hi) = Ops::<Scalar, i32>::extend_i64(self.value);
        (I64x1 { value: lo }, I64x1 { value: hi })
    }

    /// Zero-extension of the single lane to 64 bits; see
    /// [`Self::extend_i64`].
    pub fn unsigned_extend_i64(&self) -> (r: (I64x1, I64x1))
        requires
            self.wf(),
        ensures
            r.0.wf(),
            r.1.wf(),
            r.0.lanes().len() == 1,
            r.1.lanes().len() == 1,
            r.0.lanes()[0] == lanes::uwiden_i32(self.lanes()[0]),
            r.1.lanes()[0] == 0i64,
    {
        let (lo, hi) = Ops::<Scalar, i32>::unsigned_extend_i64(self.value);
        (I64x1 { value: lo }, I64x1 { value: hi })
    }
}

/// One 64-bit lane, standing in for a width-1 vector.
#[derive(Clone, Copy, Debug)]
pub struct I64x1 {
    pub value: i64,
}

impl SimdInt64 for I64x1 {
    open spec fn lanes(&self) -> Seq<i64> {
        seq![self.value]
    }

    open spec fn wf(&self) -> bool {
        true
    }

    open spec fn spec_width() -> nat {
        1
    }

    proof fn lemma_wf(&self) {
    }

    fn width() -> usize {
        1
    }

    fn zeroes() -> Self {
        I64x1 { value: Ops::<Scalar, i64>::zeroes() }
    }

    fn set1(val: i64) -> Self {
        I64x1 { value: Ops::<Scalar, i64>::set1(val) }
    }

    fn load_unaligned(src: &Vec<i64>, offset: usize) -> Self {
        let value = src[offset];
        proof {
            assert(seq![value] =~= src@.subrange(offset as int, offset as int + 1));
        }
        I64x1 { value }
    }

    fn store_unaligned(&self, dst: &mut Vec<i64>, offset: usize) {
        dst.set(offset, self.value);
    }

    fn load_aligned(src: &Vec<i64>, offset: usize) -> Self {
        Self::load_unaligned(src, offset)
    }

    fn store_aligned(&self, dst: &mut Vec<i64>, offset: usize) {
        self.store_unaligned(dst, offset);
    }

    fn get_lane(&self, i: usize) -> i64 {
        self.value
    }

    fn set_lane(&mut self, i: usize, val: i64) {
        self.value = val;
        proof {
            assert(self.lanes() =~= old(self).lanes().update(i as int, val));
        }
    }

    fn add(&self, o: &Self) -> Self {
        I64x1 { value: Ops::<Scalar, i64>::add(self.value, o.value) }
    }

    fn sub(&self, o: &Self) -> Self {
        I64x1 { value: Ops::<Scalar, i64>::sub(self.value, o.value) }
    }

    fn mul(&self, o: &Self) -> Self {
        I64x1 { value: Ops::<Scalar, i64>::mul(self.value, o.value) }
    }

    fn min(&self, o: &Self) -> Self {
        I64x1 { value: Ops::<Scalar, i64>::min(self.value, o.value) }
    }

    fn max(&self, o: &Self) -> Self {
        I64x1 { value: Ops::<Scalar, i64>::max(self.value, o.value) }
    }

    fn eq(&self, o: &Self) -> Self {
        I64x1 { value: Ops::<Scalar, i64>::eq(self.value, o.value) }
    }

    fn neq(&self, o: &Self) -> Self {
        I64x1 { value: Ops::<Scalar, i64>::neq(self.value, o.value) }
    }

    fn lt(&self, o: &Self) -> Self {
        I64x1 { value: Ops::<Scalar, i64>::lt(self.value, o.value) }
    }

    fn lte(&self, o: &Self) -> Self {
        I64x1 { value: Ops::<Scalar, i64>::lte(self.value, o.value) }
    }

    fn gt(&self, o: &Self) -> Self {
        I64x1 { value: Ops::<Scalar, i64>::gt(self.value, o.value) }
    }

    fn gte(&self, o: &Self) -> Self {
        I64x1 { value: Ops::<Scalar, i64>::gte(self.value, o.value) }
    }

    fn abs(&self) -> Self {
        I64x1 { value: Ops::<Scalar, i64>::abs(self.value) }
    }

    fn blendv(&self, o: &Self, mask: &Self) -> Self {
        I64x1 { value: Ops::<Scalar, i64>::blendv(self.value, o.value, mask.value) }
    }

    fn shl(&self, rhs: i32) -> Self {
        I64x1 { value: Ops::<Scalar, i64>::shl(self.value, rhs) }
    }

    fn shr(&self, rhs: i32) -> Self {
        I64x1 { value: Ops::<Scalar, i64>::shr(self.value, rhs) }
    }

    fn bit_and(&self, o: &Self) -> Self {
        I64x1 { value: self.value & o.value }
    }

    fn bit_or(&self, o: &Self) -> Self {
        I64x1 { value: self.value | o.value }
    }

    fn bit_xor(&self, o: &Self) -> Self {
        I64x1 { value: self.value ^ o.value }
    }

    fn bit_not(&self) -> Self {
        proof {
            lanes::lemma_not_xor_i64(self.value);
        }
        I64x1 { value: self.value ^ -1i64 }
    }

    fn bit_andnot(&self, o: &Self) -> Self {
        proof {
            lanes::lemma_not_xor_i64(self.value);
        }
        I64x1 { value: (self.value ^ -1i64) & o.value }
    }

    fn horizontal_add(&self) -> i64 {
        let r = Ops::<Scalar, i64>::horizontal_add(self.value);
        proof {
            reveal_with_fuel(lanes::hsum_i64, 2);
            assert(self.lanes().drop_last() =~= Seq::<i64>::empty());
        }
        r
    }
}

impl I8x1 {
    /// Every lane shifted left by a compile-time count; the same
    /// semantics as the run-time-count shift.
    pub fn shl_const<const BY: u32>(&self) -> (r: Self)
        requires
            self.wf(),
            BY < 8,
        ensures
            r.wf(),
            r.lanes().len() == self.lanes().len(),
            forall|j: int|
                0 <= j < r.lanes().len() ==> #[trigger] r.lanes()[j] == lanes::shl_i8(
                    self.lanes()[j],
                    BY,
                ),
    {
        self.shl(BY as i32)
    }

    /// Every lane logically shifted right by a compile-time count; the
    /// same semantics as the run-time-count shift.
    pub fn shr_const<const BY: u32>(&self) -> (r: Self)
        requires
            self.wf(),
            BY < 8,
        ensures
            r.wf(),
            r.lanes().len() == self.lanes().len(),
            forall|j: int|
                0 <= j < r.lanes().len() ==> #[trigger] r.lanes()[j] == lanes::shr_i8(
                    self.lanes()[j],
                    BY,
                ),
    {
        self.shr(BY as i32)
    }
}

impl I16x1 {
    /// Every lane shifted left by a compile-time count; the same
    /// semantics as the run-time-count shift.
    pub fn shl_const<const BY: u32>(&self) -> (r: Self)
        requires
            self.wf(),
            BY < 16,
        ensures
            r.wf(),
            r.lanes().len() == self.lanes().len(),
            forall|j: int|
                0 <= j < r.lanes().len() ==> #[trigger] r.lanes()[j] == lanes::shl_i16(
                    self.lanes()[j],
                    BY,
                ),
    {
        self.shl(BY as i32)
    }

    /// Every lane logically shifted right by a compile-time count; the
    /// same semantics as the run-time-count shift.
    pub fn shr_const<const BY: u32>(&self) -> (r: Self)
        requires
            self.wf(),
            BY < 16,
        ensures
            r.wf(),
            r.lanes().len() == self.lanes().len(),
            forall|j: int|
                0 <= j < r.lanes().len() ==> #[trigger] r.lanes()[j] == lanes::shr_i16(
                    self.lanes()[j],
                    BY,
                ),
    {
        self.shr(BY as i32)
    }
}

impl I32x1 {
    /// Every lane shifted left by a compile-time count; the same
    /// semantics as the run-time-count shift.
    pub fn shl_const<const BY: u32>(&self) -> (r: Self)
        requires
            self.wf(),
            BY < 32,
        ensures
            r.wf(),
            r.lanes().len() == self.lanes().len(),
            forall|j: int|
                0 <= j < r.lanes().len() ==> #[trigger] r.lanes()[j] == lanes::shl_i32(
                    self.lanes()[j],
                    BY,
                ),
    {
        self.shl(BY as i32)
    }

    /// Every lane logically shifted right by a compile-time count; the
    /// same semantics as the run-time-count shift.
    pub fn shr_const<const BY: u32>(&self) -> (r: Self)
        requires
            self.wf(),
            BY < 32,
        ensures
            r.wf(),
            r.lanes().len() == self.lanes().len(),
            forall|j: int|
                0 <= j < r.lanes().len() ==> #[trigger] r.lanes()[j] == lanes::shr_i32(
                    self.lanes()[j],
                    BY,
                ),
    {
        self.shr(BY as i32)
    }
}

impl I64x1 {
    /// Every lane shifted left by a compile-time count; the same
    /// semantics as the run-time-count shift.
    pub fn shl_const<const BY: u32>(&self) -> (r: Self)
        requires
            self.wf(),
            BY < 64,
        ensures
            r.wf(),
            r.lanes().len() == self.lanes().len(),
            forall|j: int|
                0 <= j < r.lanes().len() ==> #[trigger] r.lanes()[j] == lanes::shl_i64(
                    self.lanes()[j],
                    BY,
                ),
    {
        self.shl(BY as i32)
    }

    /// Every lane logically shifted right by a compile-time count; the
    /// same semantics as the run-time-count shift.
    pub fn shr_const<const BY: u32>(&self) -> (r: Self)
        requires
            self.wf(),
            BY < 64,
        ensures
            r.wf(),
            r.lanes().len() == self.lanes().len(),
            forall|j: int|
                0 <= j < r.lanes().len() ==> #[trigger] r.lanes()[j] == lanes::shr_i64(
                    self.lanes()[j],
                    BY,
                ),
    {
        self.shr(BY as i32)
    }
}

} // verus!
