//! The 256-bit wide engine.
//!
//! Its vectors hold 32 bytes of lanes: 32 8-bit, 16 16-bit, 8 32-bit or 4
//! 64-bit lanes.  Every operation is defined lane by lane with exactly the
//! scalar engine's lane semantics, which is the portability contract a
//! hardware back end of this width must also meet.

use vstd::prelude::*;

use crate::base::{SimdInt16, SimdInt32, SimdInt64, SimdInt8};
use crate::engines::scalar::Scalar;
use crate::lanes;
use crate::ops::Ops;
use crate::Simd;

verus! {

/// The 256-bit engine tag.
pub struct Avx2;

impl Simd for Avx2 {
    type Vi8 = I8x32;

    type Vi16 = I16x16;

    type Vi32 = I32x8;

    type Vi64 = I64x4;

    fn invoke<R, F: FnOnce() -> R>(f: F) -> R {
        f()
    }
}

/// 32 8-bit lanes: one 256-bit vector.
#[derive(Clone, Debug)]
pub struct I8x32 {
    vals: Vec<i8>,
}

impl SimdInt8 for I8x32 {
    closed spec fn lanes(&self) -> Seq<i8> {
        self.vals@
    }

    closed spec fn wf(&self) -> bool {
        self.vals@.len() == 32
    }

    open spec fn spec_width() -> nat {
        32
    }

    proof fn lemma_wf(&self) {
    }

    fn width() -> usize {
        32
    }

    fn zeroes() -> Self {
        let mut vals: Vec<i8> = Vec::new();
        let mut i: usize = 0;
        while i < 32
            invariant
                i <= 32,
                vals@.len() == i,
                forall|j: int| 0 <= j < i ==> #[trigger] vals@[j] == 0i8,
            decreases 32 - i,
        {
            vals.push(Ops::<Scalar, i8>::zeroes());
            i += 1;
        }
        I8x32 { vals }
    }

    fn set1(val: i8) -> Self {
        let mut vals: Vec<i8> = Vec::new();
        let mut i: usize = 0;
        while i < 32
            invariant
                i <= 32,
                vals@.len() == i,
                forall|j: int| 0 <= j < i ==> #[trigger] vals@[j] == val,
            decreases 32 - i,
        {
            vals.push(Ops::<Scalar, i8>::set1(val));
            i += 1;
        }
        I8x32 { vals }
    }

    fn load_unaligned(src: &Vec<i8>, offset: usize) -> Self {
        let n: usize = src.len();
        let mut vals: Vec<i8> = Vec::new();
        let mut i: usize = 0;
        while i < 32
            invariant
                n == src@.len(),
                offset + 32 <= n,
                i <= 32,
                vals@.len() == i,
                forall|j: int| 0 <= j < i ==> #[trigger] vals@[j] == src@[offset + j],
            decreases 32 - i,
        {
            vals.push(src[offset + i]);
            i += 1;
        }
        proof {
            assert(vals@ =~= src@.subrange(offset as int, offset as int + 32));
        }
        I8x32 { vals }
    }

    fn store_unaligned(&self, dst: &mut Vec<i8>, offset: usize) {
        let n: usize = dst.len();
        let mut i: usize = 0;
        while i < 32
            invariant
                self.wf(),
                n == dst@.len(),
                offset + 32 <= n,
                dst@.len() == old(dst)@.len(),
                i <= 32,
                forall|j: int|
                    offset <= j < offset + i ==> #[trigger] dst@[j] == self.lanes()[j - offset],
                forall|j: int|
                    0 <= j < dst@.len() && !(offset <= j < offset + i) ==> #[trigger] dst@[j]
                        == old(dst)@[j],
            decreases 32 - i,
        {
            dst.set(offset + i, self.vals[i]);
            i += 1;
        }
    }

    fn load_aligned(src: &Vec<i8>, offset: usize) -> Self {
        Self::load_unaligned(src, offset)
    }

    fn store_aligned(&self, dst: &mut Vec<i8>, offset: usize) {
        self.store_unaligned(dst, offset);
    }

    fn get_lane(&self, i: usize) -> i8 {
        self.vals[i]
    }

    fn set_lane(&mut self, i: usize, val: i8) {
        self.vals.set(i, val);
    }

    fn add(&self, o: &Self) -> Self {
        let mut vals: Vec<i8> = Vec::new();
        let mut i: usize = 0;
        while i < 32
            invariant
                self.wf(),
                o.wf(),
                i <= 32,
                vals@.len() == i,
                forall|j: int|
                    0 <= j < i ==> #[trigger] vals@[j] == lanes::add_i8(self.lanes()[j], o.lanes()[j]),
            decreases 32 - i,
        {
            let x = Ops::<Scalar, i8>::add(self.vals[i], o.vals[i]);
            vals.push(x);
            i += 1;
        }
        I8x32 { vals }
    }

    fn sub(&self, o: &Self) -> Self {
        let mut vals: Vec<i8> = Vec::new();
        let mut i: usize = 0;
        while i < 32
            invariant
                self.wf(),
                o.wf(),
                i <= 32,
                vals@.len() == i,
                forall|j: int|
                    0 <= j < i ==> #[trigger] vals@[j] == lanes::sub_i8(self.lanes()[j], o.lanes()[j]),
            decreases 32 - i,
        {
            let x = Ops::<Scalar, i8>::sub(self.vals[i], o.vals[i]);
            vals.push(x);
            i += 1;
        }
        I8x32 { vals }
    }

    fn mul(&self, o: &Self) -> Self {
        let mut vals: Vec<i8> = Vec::new();
        let mut i: usize = 0;
        while i < 32
            invariant
                self.wf(),
                o.wf(),
                i <= 32,
                vals@.len() == i,
                forall|j: int|
                    0 <= j < i ==> #[trigger] vals@[j] == lanes::mul_i8(self.lanes()[j], o.lanes()[j]),
            decreases 32 - i,
        {
            let x = Ops::<Scalar, i8>::mul(self.vals[i], o.vals[i]);
            vals.push(x);
            i += 1;
        }
        I8x32 { vals }
    }

    fn min(&self, o: &Self) -> Self {
        let mut vals: Vec<i8> = Vec::new();
        let mut i: usize = 0;
        while i < 32
            invariant
                self.wf(),
                o.wf(),
                i <= 32,
                vals@.len() == i,
                forall|j: int|
                    0 <= j < i ==> #[trigger] vals@[j] == lanes::min_i8(self.lanes()[j], o.lanes()[j]),
            decreases 32 - i,
        {
            let x = Ops::<Scalar, i8>::min(self.vals[i], o.vals[i]);
            vals.push(x);
            i += 1;
        }
        I8x32 { vals }
    }

    fn max(&self, o: &Self) -> Self {
        let mut vals: Vec<i8> = Vec::new();
        let mut i: usize = 0;
        while i < 32
            invariant
                self.wf(),
                o.wf(),
                i <= 32,
                vals@.len() == i,
                forall|j: int|
                    0 <= j < i ==> #[trigger] vals@[j] == lanes::max_i8(self.lanes()[j], o.lanes()[j]),
            decreases 32 - i,
        {
            let x = Ops::<Scalar, i8>::max(self.vals[i], o.vals[i]);
            vals.push(x);
            i += 1;
        }
        I8x32 { vals }
    }

    fn abs(&self) -> Self {
        let mut vals: Vec<i8> = Vec::new();
        let mut i: usize = 0;
        while i < 32
            invariant
                self.wf(),
                i <= 32,
                vals@.len() == i,
                forall|j: int|
                    0 <= j < i ==> #[trigger] vals@[j] == lanes::abs_i8(self.lanes()[j]),
            decreases 32 - i,
        {
            vals.push(Ops::<Scalar, i8>::abs(self.vals[i]));
            i += 1;
        }
        I8x32 { vals }
    }

    fn eq(&self, o: &Self) -> Self {
        let mut vals: Vec<i8> = Vec::new();
        let mut i: usize = 0;
        while i < 32
            invariant
                self.wf(),
                o.wf(),
                i <= 32,
                vals@.len() == i,
                forall|j: int|
                    0 <= j < i ==> #[trigger] vals@[j] == lanes::mask_i8(self.lanes()[j] == o.lanes()[j]),
            decreases 32 - i,
        {
            let x = Ops::<Scalar, i8>::eq(self.vals[i], o.vals[i]);
            vals.push(x);
            i += 1;
        }
        I8x32 { vals }
    }

    fn neq(&self, o: &Self) -> Self {
        let mut vals: Vec<i8> = Vec::new();
        let mut i: usize = 0;
        while i < 32
            invariant
                self.wf(),
                o.wf(),
                i <= 32,
                vals@.len() == i,
                forall|j: int|
                    0 <= j < i ==> #[trigger] vals@[j] == lanes::mask_i8(self.lanes()[j] != o.lanes()[j]),
            decreases 32 - i,
        {
            let x = Ops::<Scalar, i8>::neq(self.vals[i], o.vals[i]);
            vals.push(x);
            i += 1;
        }
        I8x32 { vals }
    }

    fn lt(&self, o: &Self) -> Self {
        let mut vals: Vec<i8> = Vec::new();
        let mut i: usize = 0;
        while i < 32
            invariant
                self.wf(),
                o.wf(),
                i <= 32,
                vals@.len() == i,
                forall|j: int|
                    0 <= j < i ==> #[trigger] vals@[j] == lanes::mask_i8(self.lanes()[j] < o.lanes()[j]),
            decreases 32 - i,
        {
            let x = Ops::<Scalar, i8>::lt(self.vals[i], o.vals[i]);
            vals.push(x);
            i += 1;
        }
        I8x32 { vals }
    }

    fn lte(&self, o: &Self) -> Self {
        let mut vals: Vec<i8> = Vec::new();
        let mut i: usize = 0;
        while i < 32
            invariant
                self.wf(),
                o.wf(),
                i <= 32,
                vals@.len() == i,
                forall|j: int|
                    0 <= j < i ==> #[trigger] vals@[j] == lanes::mask_i8(self.lanes()[j] <= o.lanes()[j]),
            decreases 32 - i,
        {
            let x = Ops::<Scalar, i8>::lte(self.vals[i], o.vals[i]);
            vals.push(x);
            i += 1;
        }
        I8x32 { vals }
    }

    fn gt(&self, o: &Self) -> Self {
        let mut vals: Vec<i8> = Vec::new();
        let mut i: usize = 0;
        while i < 32
            invariant
                self.wf(),
                o.wf(),
                i <= 32,
                vals@.len() == i,
                forall|j: int|
                    0 <= j < i ==> #[trigger] vals@[j] == lanes::mask_i8(self.lanes()[j] > o.lanes()[j]),
            decreases 32 - i,
        {
            let x = Ops::<Scalar, i8>::gt(self.vals[i], o.vals[i]);
            vals.push(x);
            i += 1;
        }
        I8x32 { vals }
    }

    fn gte(&self, o: &Self) -> Self {
        let mut vals: Vec<i8> = Vec::new();
        let mut i: usize = 0;
        while i < 32
            invariant
                self.wf(),
                o.wf(),
                i <= 32,
                vals@.len() == i,
                forall|j: int|
                    0 <= j < i ==> #[trigger] vals@[j] == lanes::mask_i8(self.lanes()[j] >= o.lanes()[j]),
            decreases 32 - i,
        {
            let x = Ops::<Scalar, i8>::gte(self.vals[i], o.vals[i]);
            vals.push(x);
            i += 1;
        }
        I8x32 { vals }
    }

    fn blendv(&self, o: &Self, mask: &Self) -> Self {
        let mut vals: Vec<i8> = Vec::new();
        let mut i: usize = 0;
        while i < 32
            invariant
                self.wf(),
                o.wf(),
                mask.wf(),
                i <= 32,
                vals@.len() == i,
                forall|j: int|
                    0 <= j < i ==> #[trigger] vals@[j] == lanes::blend_i8(
                        self.lanes()[j],
                        o.lanes()[j],
                        mask.lanes()[j],
                    ),
            decreases 32 - i,
        {
            let x = Ops::<Scalar, i8>::blendv(self.vals[i], o.vals[i], mask.vals[i]);
            vals.push(x);
            i += 1;
        }
        I8x32 { vals }
    }

    fn shl(&self, rhs: i32) -> Self {
        let mut vals: Vec<i8> = Vec::new();
        let mut i: usize = 0;
        while i < 32
            invariant
                self.wf(),
                0 <= rhs < 8,
                i <= 32,
                vals@.len() == i,
                forall|j: int|
                    0 <= j < i ==> #[trigger] vals@[j] == lanes::shl_i8(
                        self.lanes()[j],
                        rhs as u32,
                    ),
            decreases 32 - i,
        {
            let x = Ops::<Scalar, i8>::shl(self.vals[i], rhs);
            vals.push(x);
            i += 1;
        }
        I8x32 { vals }
    }

    fn shr(&self, rhs: i32) -> Self {
        let mut vals: Vec<i8> = Vec::new();
        let mut i: usize = 0;
        while i < 32
            invariant
                self.wf(),
                0 <= rhs < 8,
                i <= 32,
                vals@.len() == i,
                forall|j: int|
                    0 <= j < i ==> #[trigger] vals@[j] == lanes::shr_i8(
                        self.lanes()[j],
                        rhs as u32,
                    ),
            decreases 32 - i,
        {
            let x = Ops::<Scalar, i8>::shr(self.vals[i], rhs);
            vals.push(x);
            i += 1;
        }
        I8x32 { vals }
    }

    fn bit_and(&self, o: &Self) -> Self {
        let mut vals: Vec<i8> = Vec::new();
        let mut i: usize = 0;
        while i < 32
            invariant
                self.wf(),
                o.wf(),
                i <= 32,
                vals@.len() == i,
                forall|j: int|
                    0 <= j < i ==> #[trigger] vals@[j] == (self.lanes()[j] & o.lanes()[j]),
            decreases 32 - i,
        {
            let x = self.vals[i] & o.vals[i];
            vals.push(x);
            i += 1;
        }
        I8x32 { vals }
    }

    fn bit_or(&self, o: &Self) -> Self {
        let mut vals: Vec<i8> = Vec::new();
        let mut i: usize = 0;
        while i < 32
            invariant
                self.wf(),
                o.wf(),
                i <= 32,
                vals@.len() == i,
                forall|j: int|
                    0 <= j < i ==> #[trigger] vals@[j] == (self.lanes()[j] | o.lanes()[j]),
            decreases 32 - i,
        {
            let x = self.vals[i] | o.vals[i];
            vals.push(x);
            i += 1;
        }
        I8x32 { vals }
    }

    fn bit_xor(&self, o: &Self) -> Self {
        let mut vals: Vec<i8> = Vec::new();
        let mut i: usize = 0;
        while i < 32
            invariant
                self.wf(),
                o.wf(),
                i <= 32,
                vals@.len() == i,
                forall|j: int|
                    0 <= j < i ==> #[trigger] vals@[j] == (self.lanes()[j] ^ o.lanes()[j]),
            decreases 32 - i,
        {
            let x = self.vals[i] ^ o.vals[i];
            vals.push(x);
            i += 1;
        }
        I8x32 { vals }
    }

    fn bit_andnot(&self, o: &Self) -> Self {
        let mut vals: Vec<i8> = Vec::new();
        let mut i: usize = 0;
        while i < 32
            invariant
                self.wf(),
                o.wf(),
                i <= 32,
                vals@.len() == i,
                forall|j: int|
                    0 <= j < i ==> #[trigger] vals@[j] == (!self.lanes()[j] & o.lanes()[j]),
            decreases 32 - i,
        {
            proof {
                lanes::lemma_not_xor_i8(self.vals@[i as int]);
            }
            let x = (self.vals[i] ^ -1i8) & o.vals[i];
            vals.push(x);
            i += 1;
        }
        I8x32 { vals }
    }

    fn bit_not(&self) -> Self {
        let mut vals: Vec<i8> = Vec::new();
        let mut i: usize = 0;
        while i < 32
            invariant
                self.wf(),
                i <= 32,
                vals@.len() == i,
                forall|j: int| 0 <= j < i ==> #[trigger] vals@[j] == !self.lanes()[j],
            decreases 32 - i,
        {
            proof {
                lanes::lemma_not_xor_i8(self.vals@[i as int]);
            }
            let x = self.vals[i] ^ -1i8;
            vals.push(x);
            i += 1;
        }
        I8x32 { vals }
    }

    fn get_mask(&self) -> u32 {
        let mut r: u32 = 0;
        let mut i: usize = 0;
        proof {
            assert(self.lanes().take(0) =~= Seq::<i8>::empty());
        }
        while i < 32
            invariant
                self.wf(),
                i <= 32,
                r == lanes::movemask_i8(self.lanes().take(i as int)),
            decreases 32 - i,
        {
            if self.vals[i] < 0 {
                r = r | (1u32 << (i as u32));
            }
            proof {
                let t1 = self.lanes().take(i as int + 1);
                assert(t1.drop_last() =~= self.lanes().take(i as int));
                assert(t1.last() == self.lanes()[i as int]);
            }
            i += 1;
        }
        proof {
            assert(self.lanes().take(32) =~= self.lanes());
        }
        r
    }

    fn is_truthy(&self) -> bool {
        let mut found: bool = false;
        let mut i: usize = 0;
        while i < 32
            invariant
                self.wf(),
                i <= 32,
                found == exists|j: int| 0 <= j < i && #[trigger] self.lanes()[j] != 0i8,
            decreases 32 - i,
        {
            if self.vals[i] != 0 {
                found = true;
                proof {
                    assert(self.lanes()[i as int] != 0i8);
                }
            }
            i += 1;
        }
        found
    }
}

impl I8x32 {
    /// Sign-extension of every lane to 16 bits, as a pair of vectors:
    /// the low half of the lanes widened, then the high half.
    pub fn extend_i16(&self) -> (r: (I16x16, I16x16))
        requires
            self.wf(),
        ensures
            r.0.wf(),
            r.1.wf(),
            r.0.lanes().len() == 16,
            r.1.lanes().len() == 16,
            forall|j: int|
                0 <= j < 16 ==> #[trigger] r.0.lanes()[j] == lanes::widen_i8(self.lanes()[j]),
            forall|j: int|
                0 <= j < 16 ==> #[trigger] r.1.lanes()[j] == lanes::widen_i8(
                    self.lanes()[16 + j],
                ),
    {
        let mut lo: Vec<i16> = Vec::new();
        let mut hi: Vec<i16> = Vec::new();
        let mut i: usize = 0;
        while i < 16
            invariant
                self.wf(),
                i <= 16,
                lo@.len() == i,
                hi@.len() == i,
                forall|j: int|
                    0 <= j < i ==> #[trigger] lo@[j] == lanes::widen_i8(self.lanes()[j]),
                forall|j: int|
                    0 <= j < i ==> #[trigger] hi@[j] == lanes::widen_i8(self.lanes()[16 + j]),
            decreases 16 - i,
        {
            let (a, _) = Ops::<Scalar, i8>::extend_i16(self.vals[i]);
            let (b, _) = Ops::<Scalar, i8>::extend_i16(self.vals[16 + i]);
            lo.push(a);
            hi.push(b);
            i += 1;
        }
        (I16x16 { vals: lo }, I16x16 { vals: hi })
    }

    /// Zero-extension of every lane to 16 bits; see
    /// [`Self::extend_i16`].
    pub fn unsigned_extend_i16(&self) -> (r: (I16x16, I16x16))
        requires
            self.wf(),
        ensures
            r.0.wf(),
            r.1.wf(),
            r.0.lanes().len() == 16,
            r.1.lanes().len() == 16,
            forall|j: int|
                0 <= j < 16 ==> #[trigger] r.0.lanes()[j] == lanes::uwiden_i8(self.lanes()[j]),
            forall|j: int|
                0 <= j < 16 ==> #[trigger] r.1.lanes()[j] == lanes::uwiden_i8(
                    self.lanes()[16 + j],
                ),
    {
        let mut lo: Vec<i16> = Vec::new();
        let mut hi: Vec<i16> = Vec::new();
        let mut i: usize = 0;
        while i < 16
            invariant
                self.wf(),
                i <= 16,
                lo@.len() == i,
                hi@.len() == i,
                forall|j: int|
                    0 <= j < i ==> #[trigger] lo@[j] == lanes::uwiden_i8(self.lanes()[j]),
                forall|j: int|
                    0 <= j < i ==> #[trigger] hi@[j] == lanes::uwiden_i8(self.lanes()[16 + j]),
            decreases 16 - i,
        {
            let (a, _) = Ops::<Scalar, i8>::unsigned_extend_i16(self.vals[i]);
            let (b, _) = Ops::<Scalar, i8>::unsigned_extend_i16(self.vals[16 + i]);
            lo.push(a);
            hi.push(b);
            i += 1;
        }
        (I16x16 { vals: lo }, I16x16 { vals: hi })
    }
}

/// 16 16-bit lanes: one 256-bit vector.
#[derive(Clone, Debug)]
pub struct I16x16 {
    vals: Vec<i16>,
}

impl SimdInt16 for I16x16 {
    closed spec fn lanes(&self) -> Seq<i16> {
        self.vals@
    }

    closed spec fn wf(&self) -> bool {
        self.vals@.len() == 16
    }

    open spec fn spec_width() -> nat {
        16
    }

    proof fn lemma_wf(&self) {
    }

    fn width() -> usize {
        16
    }

    fn zeroes() -> Self {
        let mut vals: Vec<i16> = Vec::new();
        let mut i: usize = 0;
        while i < 16
            invariant
                i <= 16,
                vals@.len() == i,
                forall|j: int| 0 <= j < i ==> #[trigger] vals@[j] == 0i16,
            decreases 16 - i,
        {
            vals.push(Ops::<Scalar, i16>::zeroes());
            i += 1;
        }
        I16x16 { vals }
    }

    fn set1(val: i16) -> Self {
        let mut vals: Vec<i16> = Vec::new();
        let mut i: usize = 0;
        while i < 16
            invariant
                i <= 16,
                vals@.len() == i,
                forall|j: int| 0 <= j < i ==> #[trigger] vals@[j] == val,
            decreases 16 - i,
        {
            vals.push(Ops::<Scalar, i16>::set1(val));
            i += 1;
        }
        I16x16 { vals }
    }

    fn load_unaligned(src: &Vec<i16>, offset: usize) -> Self {
        let n: usize = src.len();
        let mut vals: Vec<i16> = Vec::new();
        let mut i: usize = 0;
        while i < 16
            invariant
                n == src@.len(),
                offset + 16 <= n,
                i <= 16,
                vals@.len() == i,
                forall|j: int| 0 <= j < i ==> #[trigger] vals@[j] == src@[offset + j],
            decreases 16 - i,
        {
            vals.push(src[offset + i]);
            i += 1;
        }
        proof {
            assert(vals@ =~= src@.subrange(offset as int, offset as int + 16));
        }
        I16x16 { vals }
    }

    fn store_unaligned(&self, dst: &mut Vec<i16>, offset: usize) {
        let n: usize = dst.len();
        let mut i: usize = 0;
        while i < 16
            invariant
                self.wf(),
                n == dst@.len(),
                offset + 16 <= n,
                dst@.len() == old(dst)@.len(),
                i <= 16,
                forall|j: int|
                    offset <= j < offset + i ==> #[trigger] dst@[j] == self.lanes()[j - offset],
                forall|j: int|
                    0 <= j < dst@.len() && !(offset <= j < offset + i) ==> #[trigger] dst@[j]
                        == old(dst)@[j],
            decreases 16 - i,
        {
            dst.set(offset + i, self.vals[i]);
            i += 1;
        }
    }

    fn load_aligned(src: &Vec<i16>, offset: usize) -> Self {
        Self::load_unaligned(src, offset)
    }

    fn store_aligned(&self, dst: &mut Vec<i16>, offset: usize) {
        self.store_unaligned(dst, offset);
    }

    fn get_lane(&self, i: usize) -> i16 {
        self.vals[i]
    }

    fn set_lane(&mut self, i: usize, val: i16) {
        self.vals.set(i, val);
    }

    fn add(&self, o: &Self) -> Self {
        let mut vals: Vec<i16> = Vec::new();
        let mut i: usize = 0;
        while i < 16
            invariant
                self.wf(),
                o.wf(),
                i <= 16,
                vals@.len() == i,
                forall|j: int|
                    0 <= j < i ==> #[trigger] vals@[j] == lanes::add_i16(self.lanes()[j], o.lanes()[j]),
            decreases 16 - i,
        {
            let x = Ops::<Scalar, i16>::add(self.vals[i], o.vals[i]);
            vals.push(x);
            i += 1;
        }
        I16x16 { vals }
    }

    fn sub(&self, o: &Self) -> Self {
        let mut vals: Vec<i16> = Vec::new();
        let mut i: usize = 0;
        while i < 16
            invariant
                self.wf(),
                o.wf(),
                i <= 16,
                vals@.len() == i,
                forall|j: int|
                    0 <= j < i ==> #[trigger] vals@[j] == lanes::sub_i16(self.lanes()[j], o.lanes()[j]),
            decreases 16 - i,
        {
            let x = Ops::<Scalar, i16>::sub(self.vals[i], o.vals[i]);
            vals.push(x);
            i += 1;
        }
        I16x16 { vals }
    }

    fn mul(&self, o: &Self) -> Self {
        let mut vals: Vec<i16> = Vec::new();
        let mut i: usize = 0;
        while i < 16
            invariant
                self.wf(),
                o.wf(),
                i <= 16,
                vals@.len() == i,
                forall|j: int|
                    0 <= j < i ==> #[trigger] vals@[j] == lanes::mul_i16(self.lanes()[j], o.lanes()[j]),
            decreases 16 - i,
        {
            let x = Ops::<Scalar, i16>::mul(self.vals[i], o.vals[i]);
            vals.push(x);
            i += 1;
        }
        I16x16 { vals }
    }

    fn min(&self, o: &Self) -> Self {
        let mut vals: Vec<i16> = Vec::new();
        let mut i: usize = 0;
        while i < 16
            invariant
                self.wf(),
                o.wf(),
                i <= 16,
                vals@.len() == i,
                forall|j: int|
                    0 <= j < i ==> #[trigger] vals@[j] == lanes::min_i16(self.lanes()[j], o.lanes()[j]),
            decreases 16 - i,
        {
            let x = Ops::<Scalar, i16>::min(self.vals[i], o.vals[i]);
            vals.push(x);
            i += 1;
        }
        I16x16 { vals }
    }

    fn max(&self, o: &Self) -> Self {
        let mut vals: Vec<i16> = Vec::new();
        let mut i: usize = 0;
        while i < 16
            invariant
                self.wf(),
                o.wf(),
                i <= 16,
                vals@.len() == i,
                forall|j: int|
                    0 <= j < i ==> #[trigger] vals@[j] == lanes::max_i16(self.lanes()[j], o.lanes()[j]),
            decreases 16 - i,
        {
            let x = Ops::<Scalar, i16>::max(self.vals[i], o.vals[i]);
            vals.push(x);
            i += 1;
        }
        I16x16 { vals }
    }

    fn abs(&self) -> Self {
        let mut vals: Vec<i16> = Vec::new();
        let mut i: usize = 0;
        while i < 16
            invariant
                self.wf(),
                i <= 16,
                vals@.len() == i,
                forall|j: int|
                    0 <= j < i ==> #[trigger] vals@[j] == lanes::abs_i16(self.lanes()[j]),
            decreases 16 - i,
        {
            vals.push(Ops::<Scalar, i16>::abs(self.vals[i]));
            i += 1;
        }
        I16x16 { vals }
    }

    fn eq(&self, o: &Self) -> Self {
        let mut vals: Vec<i16> = Vec::new();
        let mut i: usize = 0;
        while i < 16
            invariant
                self.wf(),
                o.wf(),
                i <= 16,
                vals@.len() == i,
                forall|j: int|
                    0 <= j < i ==> #[trigger] vals@[j] == lanes::mask_i16(self.lanes()[j] == o.lanes()[j]),
            decreases 16 - i,
        {
            let x = Ops::<Scalar, i16>::eq(self.vals[i], o.vals[i]);
            vals.push(x);
            i += 1;
        }
        I16x16 { vals }
    }

    fn neq(&self, o: &Self) -> Self {
        let mut vals: Vec<i16> = Vec::new();
        let mut i: usize = 0;
        while i < 16
            invariant
                self.wf(),
                o.wf(),
                i <= 16,
                vals@.len() == i,
                forall|j: int|
                    0 <= j < i ==> #[trigger] vals@[j] == lanes::mask_i16(self.lanes()[j] != o.lanes()[j]),
            decreases 16 - i,
        {
            let x = Ops::<Scalar, i16>::neq(self.vals[i], o.vals[i]);
            vals.push(x);
            i += 1;
        }
        I16x16 { vals }
    }

    fn lt(&self, o: &Self) -> Self {
        let mut vals: Vec<i16> = Vec::new();
        let mut i: usize = 0;
        while i < 16
            invariant
                self.wf(),
                o.wf(),
                i <= 16,
                vals@.len() == i,
                forall|j: int|
                    0 <= j < i ==> #[trigger] vals@[j] == lanes::mask_i16(self.lanes()[j] < o.lanes()[j]),
            decreases 16 - i,
        {
            let x = Ops::<Scalar, i16>::lt(self.vals[i], o.vals[i]);
            vals.push(x);
            i += 1;
        }
        I16x16 { vals }
    }

    fn lte(&self, o: &Self) -> Self {
        let mut vals: Vec<i16> = Vec::new();
        let mut i: usize = 0;
        while i < 16
            invariant
                self.wf(),
                o.wf(),
                i <= 16,
                vals@.len() == i,
                forall|j: int|
                    0 <= j < i ==> #[trigger] vals@[j] == lanes::mask_i16(self.lanes()[j] <= o.lanes()[j]),
            decreases 16 - i,
        {
            let x = Ops::<Scalar, i16>::lte(self.vals[i], o.vals[i]);
            vals.push(x);
            i += 1;
        }
        I16x16 { vals }
    }

    fn gt(&self, o: &Self) -> Self {
        let mut vals: Vec<i16> = Vec::new();
        let mut i: usize = 0;
        while i < 16
            invariant
                self.wf(),
                o.wf(),
                i <= 16,
                vals@.len() == i,
                forall|j: int|
                    0 <= j < i ==> #[trigger] vals@[j] == lanes::mask_i16(self.lanes()[j] > o.lanes()[j]),
            decreases 16 - i,
        {
            let x = Ops::<Scalar, i16>::gt(self.vals[i], o.vals[i]);
            vals.push(x);
            i += 1;
        }
        I16x16 { vals }
    }

    fn gte(&self, o: &Self) -> Self {
        let mut vals: Vec<i16> = Vec::new();
        let mut i: usize = 0;
        while i < 16
            invariant
                self.wf(),
                o.wf(),
                i <= 16,
                vals@.len() == i,
                forall|j: int|
                    0 <= j < i ==> #[trigger] vals@[j] == lanes::mask_i16(self.lanes()[j] >= o.lanes()[j]),
            decreases 16 - i,
        {
            let x = Ops::<Scalar, i16>::gte(self.vals[i], o.vals[i]);
            vals.push(x);
            i += 1;
        }
        I16x16 { vals }
    }

    fn blendv(&self, o: &Self, mask: &Self) -> Self {
        let mut vals: Vec<i16> = Vec::new();
        let mut i: usize = 0;
        while i < 16
            invariant
                self.wf(),
                o.wf(),
                mask.wf(),
                i <= 16,
                vals@.len() == i,
                forall|j: int|
                    0 <= j < i ==> #[trigger] vals@[j] == lanes::blend_i16(
                        self.lanes()[j],
                        o.lanes()[j],
                        mask.lanes()[j],
                    ),
            decreases 16 - i,
        {
            let x = Ops::<Scalar, i16>::blendv(self.vals[i], o.vals[i], mask.vals[i]);
            vals.push(x);
            i += 1;
        }
        I16x16 { vals }
    }

    fn shl(&self, rhs: i32) -> Self {
        let mut vals: Vec<i16> = Vec::new();
        let mut i: usize = 0;
        while i < 16
            invariant
                self.wf(),
                0 <= rhs < 16,
                i <= 16,
                vals@.len() == i,
                forall|j: int|
                    0 <= j < i ==> #[trigger] vals@[j] == lanes::shl_i16(
                        self.lanes()[j],
                        rhs as u32,
                    ),
            decreases 16 - i,
        {
            let x = Ops::<Scalar, i16>::shl(self.vals[i], rhs);
            vals.push(x);
            i += 1;
        }
        I16x16 { vals }
    }

    fn shr(&self, rhs: i32) -> Self {
        let mut vals: Vec<i16> = Vec::new();
        let mut i: usize = 0;
        while i < 16
            invariant
                self.wf(),
                0 <= rhs < 16,
                i <= 16,
                vals@.len() == i,
                forall|j: int|
                    0 <= j < i ==> #[trigger] vals@[j] == lanes::shr_i16(
                        self.lanes()[j],
                        rhs as u32,
                    ),
            decreases 16 - i,
        {
            let x = Ops::<Scalar, i16>::shr(self.vals[i], rhs);
            vals.push(x);
            i += 1;
        }
        I16x16 { vals }
    }

    fn bit_and(&self, o: &Self) -> Self {
        let mut vals: Vec<i16> = Vec::new();
        let mut i: usize = 0;
        while i < 16
            invariant
                self.wf(),
                o.wf(),
                i <= 16,
                vals@.len() == i,
                forall|j: int|
                    0 <= j < i ==> #[trigger] vals@[j] == (self.lanes()[j] & o.lanes()[j]),
            decreases 16 - i,
        {
            let x = self.vals[i] & o.vals[i];
            vals.push(x);
            i += 1;
        }
        I16x16 { vals }
    }

    fn bit_or(&self, o: &Self) -> Self {
        let mut vals: Vec<i16> = Vec::new();
        let mut i: usize = 0;
        while i < 16
            invariant
                self.wf(),
                o.wf(),
                i <= 16,
                vals@.len() == i,
                forall|j: int|
                    0 <= j < i ==> #[trigger] vals@[j] == (self.lanes()[j] | o.lanes()[j]),
            decreases 16 - i,
        {
            let x = self.vals[i] | o.vals[i];
            vals.push(x);
            i += 1;
        }
        I16x16 { vals }
    }

    fn bit_xor(&self, o: &Self) -> Self {
        let mut vals: Vec<i16> = Vec::new();
        let mut i: usize = 0;
        while i < 16
            invariant
                self.wf(),
                o.wf(),
                i <= 16,
                vals@.len() == i,
                forall|j: int|
                    0 <= j < i ==> #[trigger] vals@[j] == (self.lanes()[j] ^ o.lanes()[j]),
            decreases 16 - i,
        {
            let x = self.vals[i] ^ o.vals[i];
            vals.push(x);
            i += 1;
        }
        I16x16 { vals }
    }

    fn bit_andnot(&self, o: &Self) -> Self {
        let mut vals: Vec<i16> = Vec::new();
        let mut i: usize = 0;
        while i < 16
            invariant
                self.wf(),
                o.wf(),
                i <= 16,
                vals@.len() == i,
                forall|j: int|
                    0 <= j < i ==> #[trigger] vals@[j] == (!self.lanes()[j] & o.lanes()[j]),
            decreases 16 - i,
        {
            proof {
                lanes::lemma_not_xor_i16(self.vals@[i as int]);
            }
            let x = (self.vals[i] ^ -1i16) & o.vals[i];
            vals.push(x);
            i += 1;
        }
        I16x16 { vals }
    }

    fn bit_not(&self) -> Self {
        let mut vals: Vec<i16> = Vec::new();
        let mut i: usize = 0;
        while i < 16
            invariant
                self.wf(),
                i <= 16,
                vals@.len() == i,
                forall|j: int| 0 <= j < i ==> #[trigger] vals@[j] == !self.lanes()[j],
            decreases 16 - i,
        {
            proof {
                lanes::lemma_not_xor_i16(self.vals@[i as int]);
            }
            let x = self.vals[i] ^ -1i16;
            vals.push(x);
            i += 1;
        }
        I16x16 { vals }
    }
}

impl I16x16 {
    /// Sign-extension of every lane to 32 bits, as a pair of vectors:
    /// the low half of the lanes widened, then the high half.
    pub fn extend_i32(&self) -> (r: (I32x8, I32x8))
        requires
            self.wf(),
        ensures
            r.0.wf(),
            r.1.wf(),
            r.0.lanes().len() == 8,
            r.1.lanes().len() == 8,
            forall|j: int|
                0 <= j < 8 ==> #[trigger] r.0.lanes()[j] == lanes::widen_i16(self.lanes()[j]),
            forall|j: int|
                0 <= j < 8 ==> #[trigger] r.1.lanes()[j] == lanes::widen_i16(
                    self.lanes()[8 + j],
                ),
    {
        let mut lo: Vec<i32> = Vec::new();
        let mut hi: Vec<i32> = Vec::new();
        let mut i: usize = 0;
        while i < 8
            invariant
                self.wf(),
                i <= 8,
                lo@.len() == i,
                hi@.len() == i,
                forall|j: int|
                    0 <= j < i ==> #[trigger] lo@[j] == lanes::widen_i16(self.lanes()[j]),
                forall|j: int|
                    0 <= j < i ==> #[trigger] hi@[j] == lanes::widen_i16(self.lanes()[8 + j]),
            decreases 8 - i,
        {
            let (a, _) = Ops::<Scalar, i16>::extend_i32(self.vals[i]);
            let (b, _) = Ops::<Scalar, i16>::extend_i32(self.vals[8 + i]);
            lo.push(a);
            hi.push(b);
            i += 1;
        }
        (I32x8 { vals: lo }, I32x8 { vals: hi })
    }

    /// Zero-extension of every lane to 32 bits; see
    /// [`Self::extend_i32`].
    pub fn unsigned_extend_i32(&self) -> (r: (I32x8, I32x8))
        requires
            self.wf(),
        ensures
            r.0.wf(),
            r.1.wf(),
            r.0.lanes().len() == 8,
            r.1.lanes().len() == 8,
            forall|j: int|
                0 <= j < 8 ==> #[trigger] r.0.lanes()[j] == lanes::uwiden_i16(self.lanes()[j]),
            forall|j: int|
                0 <= j < 8 ==> #[trigger] r.1.lanes()[j] == lanes::uwiden_i16(
                    self.lanes()[8 + j],
                ),
    {
        let mut lo: Vec<i32> = Vec::new();
        let mut hi: Vec<i32> = Vec::new();
        let mut i: usize = 0;
        while i < 8
            invariant
                self.wf(),
                i <= 8,
                lo@.len() == i,
                hi@.len() == i,
                forall|j: int|
                    0 <= j < i ==> #[trigger] lo@[j] == lanes::uwiden_i16(self.lanes()[j]),
                forall|j: int|
                    0 <= j < i ==> #[trigger] hi@[j] == lanes::uwiden_i16(self.lanes()[8 + j]),
            decreases 8 - i,
        {
            let (a, _) = Ops::<Scalar, i16>::unsigned_extend_i32(self.vals[i]);
            let (b, _) = Ops::<Scalar, i16>::unsigned_extend_i32(self.vals[8 + i]);
            lo.push(a);
            hi.push(b);
            i += 1;
        }
        (I32x8 { vals: lo }, I32x8 { vals: hi })
    }
}

/// 8 32-bit lanes: one 256-bit vector.
#[derive(Clone, Debug)]
pub struct I32x8 {
    vals: Vec<i32>,
}

impl SimdInt32 for I32x8 {
    closed spec fn lanes(&self) -> Seq<i32> {
        self.vals@
    }

    closed spec fn wf(&self) -> bool {
        self.vals@.len() == 8
    }

    open spec fn spec_width() -> nat {
        8
    }

    proof fn lemma_wf(&self) {
    }

    fn width() -> usize {
        8
    }

    fn zeroes() -> Self {
        let mut vals: Vec<i32> = Vec::new();
        let mut i: usize = 0;
        while i < 8
            invariant
                i <= 8,
                vals@.len() == i,
                forall|j: int| 0 <= j < i ==> #[trigger] vals@[j] == 0i32,
            decreases 8 - i,
        {
            vals.push(Ops::<Scalar, i32>::zeroes());
            i += 1;
        }
        I32x8 { vals }
    }

    fn set1(val: i32) -> Self {
        let mut vals: Vec<i32> = Vec::new();
        let mut i: usize = 0;
        while i < 8
            invariant
                i <= 8,
                vals@.len() == i,
                forall|j: int| 0 <= j < i ==> #[trigger] vals@[j] == val,
            decreases 8 - i,
        {
            vals.push(Ops::<Scalar, i32>::set1(val));
            i += 1;
        }
        I32x8 { vals }
    }

    fn load_unaligned(src: &Vec<i32>, offset: usize) -> Self {
        let n: usize = src.len();
        let mut vals: Vec<i32> = Vec::new();
        let mut i: usize = 0;
        while i < 8
            invariant
                n == src@.len(),
                offset + 8 <= n,
                i <= 8,
                vals@.len() == i,
                forall|j: int| 0 <= j < i ==> #[trigger] vals@[j] == src@[offset + j],
            decreases 8 - i,
        {
            vals.push(src[offset + i]);
            i += 1;
        }
        proof {
            assert(vals@ =~= src@.subrange(offset as int, offset as int + 8));
        }
        I32x8 { vals }
    }

    fn store_unaligned(&self, dst: &mut Vec<i32>, offset: usize) {
        let n: usize = dst.len();
        let mut i: usize = 0;
        while i < 8
            invariant
                self.wf(),
                n == dst@.len(),
                offset + 8 <= n,
                dst@.len() == old(dst)@.len(),
                i <= 8,
                forall|j: int|
                    offset <= j < offset + i ==> #[trigger] dst@[j] == self.lanes()[j - offset],
                forall|j: int|
                    0 <= j < dst@.len() && !(offset <= j < offset + i) ==> #[trigger] dst@[j]
                        == old(dst)@[j],
            decreases 8 - i,
        {
            dst.set(offset + i, self.vals[i]);
            i += 1;
        }
    }

    fn load_aligned(src: &Vec<i32>, offset: usize) -> Self {
        Self::load_unaligned(src, offset)
    }

    fn store_aligned(&self, dst: &mut Vec<i32>, offset: usize) {
        self.store_unaligned(dst, offset);
    }

    fn get_lane(&self, i: usize) -> i32 {
        self.vals[i]
    }

    fn set_lane(&mut self, i: usize, val: i32) {
        self.vals.set(i, val);
    }

    fn add(&self, o: &Self) -> Self {
        let mut vals: Vec<i32> = Vec::new();
        let mut i: usize = 0;
        while i < 8
            invariant
                self.wf(),
                o.wf(),
                i <= 8,
                vals@.len() == i,
                forall|j: int|
                    0 <= j < i ==> #[trigger] vals@[j] == lanes::add_i32(self.lanes()[j], o.lanes()[j]),
            decreases 8 - i,
        {
            let x = Ops::<Scalar, i32>::add(self.vals[i], o.vals[i]);
            vals.push(x);
            i += 1;
        }
        I32x8 { vals }
    }

    fn sub(&self, o: &Self) -> Self {
        let mut vals: Vec<i32> = Vec::new();
        let mut i: usize = 0;
        while i < 8
            invariant
                self.wf(),
                o.wf(),
                i <= 8,
                vals@.len() == i,
                forall|j: int|
                    0 <= j < i ==> #[trigger] vals@[j] == lanes::sub_i32(self.lanes()[j], o.lanes()[j]),
            decreases 8 - i,
        {
            let x = Ops::<Scalar, i32>::sub(self.vals[i], o.vals[i]);
            vals.push(x);
            i += 1;
        }
        I32x8 { vals }
    }

    fn mul(&self, o: &Self) -> Self {
        let mut vals: Vec<i32> = Vec::new();
        let mut i: usize = 0;
        while i < 8
            invariant
                self.wf(),
                o.wf(),
                i <= 8,
                vals@.len() == i,
                forall|j: int|
                    0 <= j < i ==> #[trigger] vals@[j] == lanes::mul_i32(self.lanes()[j], o.lanes()[j]),
            decreases 8 - i,
        {
            let x = Ops::<Scalar, i32>::mul(self.vals[i], o.vals[i]);
            vals.push(x);
            i += 1;
        }
        I32x8 { vals }
    }

    fn min(&self, o: &Self) -> Self {
        let mut vals: Vec<i32> = Vec::new();
        let mut i: usize = 0;
        while i < 8
            invariant
                self.wf(),
                o.wf(),
                i <= 8,
                vals@.len() == i,
                forall|j: int|
                    0 <= j < i ==> #[trigger] vals@[j] == lanes::min_i32(self.lanes()[j], o.lanes()[j]),
            decreases 8 - i,
        {
            let x = Ops::<Scalar, i32>::min(self.vals[i], o.vals[i]);
            vals.push(x);
            i += 1;
        }
        I32x8 { vals }
    }

    fn max(&self, o: &Self) -> Self {
        let mut vals: Vec<i32> = Vec::new();
        let mut i: usize = 0;
        while i < 8
            invariant
                self.wf(),
                o.wf(),
                i <= 8,
                vals@.len() == i,
                forall|j: int|
                    0 <= j < i ==> #[trigger] vals@[j] == lanes::max_i32(self.lanes()[j], o.lanes()[j]),
            decreases 8 - i,
        {
            let x = Ops::<Scalar, i32>::max(self.vals[i], o.vals[i]);
            vals.push(x);
            i += 1;
        }
        I32x8 { vals }
    }

    fn abs(&self) -> Self {
        let mut vals: Vec<i32> = Vec::new();
        let mut i: usize = 0;
        while i < 8
            invariant
                self.wf(),
                i <= 8,
                vals@.len() == i,
                forall|j: int|
                    0 <= j < i ==> #[trigger] vals@[j] == lanes::abs_i32(self.lanes()[j]),
            decreases 8 - i,
        {
            vals.push(Ops::<Scalar, i32>::abs(self.vals[i]));
            i += 1;
        }
        I32x8 { vals }
    }

    fn eq(&self, o: &Self) -> Self {
        let mut vals: Vec<i32> = Vec::new();
        let mut i: usize = 0;
        while i < 8
            invariant
                self.wf(),
                o.wf(),
                i <= 8,
                vals@.len() == i,
                forall|j: int|
                    0 <= j < i ==> #[trigger] vals@[j] == lanes::mask_i32(self.lanes()[j] == o.lanes()[j]),
            decreases 8 - i,
        {
            let x = Ops::<Scalar, i32>::eq(self.vals[i], o.vals[i]);
            vals.push(x);
            i += 1;
        }
        I32x8 { vals }
    }

    fn neq(&self, o: &Self) -> Self {
        let mut vals: Vec<i32> = Vec::new();
        let mut i: usize = 0;
        while i < 8
            invariant
                self.wf(),
                o.wf(),
                i <= 8,
                vals@.len() == i,
                forall|j: int|
                    0 <= j < i ==> #[trigger] vals@[j] == lanes::mask_i32(self.lanes()[j] != o.lanes()[j]),
            decreases 8 - i,
        {
            let x = Ops::<Scalar, i32>::neq(self.vals[i], o.vals[i]);
            vals.push(x);
            i += 1;
        }
        I32x8 { vals }
    }

    fn lt(&self, o: &Self) -> Self {
        let mut vals: Vec<i32> = Vec::new();
        let mut i: usize = 0;
        while i < 8
            invariant
                self.wf(),
                o.wf(),
                i <= 8,
                vals@.len() == i,
                forall|j: int|
                    0 <= j < i ==> #[trigger] vals@[j] == lanes::mask_i32(self.lanes()[j] < o.lanes()[j]),
            decreases 8 - i,
        {
            let x = Ops::<Scalar, i32>::lt(self.vals[i], o.vals[i]);
            vals.push(x);
            i += 1;
        }
        I32x8 { vals }
    }

    fn lte(&self, o: &Self) -> Self {
        let mut vals: Vec<i32> = Vec::new();
        let mut i: usize = 0;
        while i < 8
            invariant
                self.wf(),
                o.wf(),
                i <= 8,
                vals@.len() == i,
                forall|j: int|
                    0 <= j < i ==> #[trigger] vals@[j] == lanes::mask_i32(self.lanes()[j] <= o.lanes()[j]),
            decreases 8 - i,
        {
            let x = Ops::<Scalar, i32>::lte(self.vals[i], o.vals[i]);
            vals.push(x);
            i += 1;
        }
        I32x8 { vals }
    }

    fn gt(&self, o: &Self) -> Self {
        let mut vals: Vec<i32> = Vec::new();
        let mut i: usize = 0;
        while i < 8
            invariant
                self.wf(),
                o.wf(),
                i <= 8,
                vals@.len() == i,
                forall|j: int|
                    0 <= j < i ==> #[trigger] vals@[j] == lanes::mask_i32(self.lanes()[j] > o.lanes()[j]),
            decreases 8 - i,
        {
            let x = Ops::<Scalar, i32>::gt(self.vals[i], o.vals[i]);
            vals.push(x);
            i += 1;
        }
        I32x8 { vals }
    }

    fn gte(&self, o: &Self) -> Self {
        let mut vals: Vec<i32> = Vec::new();
        let mut i: usize = 0;
        while i < 8
            invariant
                self.wf(),
                o.wf(),
                i <= 8,
                vals@.len() == i,
                forall|j: int|
                    0 <= j < i ==> #[trigger] vals@[j] == lanes::mask_i32(self.lanes()[j] >= o.lanes()[j]),
            decreases 8 - i,
        {
            let x = Ops::<Scalar, i32>::gte(self.vals[i], o.vals[i]);
            vals.push(x);
            i += 1;
        }
        I32x8 { vals }
    }

    fn blendv(&self, o: &Self, mask: &Self) -> Self {
        let mut vals: Vec<i32> = Vec::new();
        let mut i: usize = 0;
        while i < 8
            invariant
                self.wf(),
                o.wf(),
                mask.wf(),
                i <= 8,
                vals@.len() == i,
                forall|j: int|
                    0 <= j < i ==> #[trigger] vals@[j] == lanes::blend_i32(
                        self.lanes()[j],
                        o.lanes()[j],
                        mask.lanes()[j],
                    ),
            decreases 8 - i,
        {
            let x = Ops::<Scalar, i32>::blendv(self.vals[i], o.vals[i], mask.vals[i]);
            vals.push(x);
            i += 1;
        }
        I32x8 { vals }
    }

    fn shl(&self, rhs: i32) -> Self {
        let mut vals: Vec<i32> = Vec::new();
        let mut i: usize = 0;
        while i < 8
            invariant
                self.wf(),
                0 <= rhs < 32,
                i <= 8,
                vals@.len() == i,
                forall|j: int|
                    0 <= j < i ==> #[trigger] vals@[j] == lanes::shl_i32(
                        self.lanes()[j],
                        rhs as u32,
                    ),
            decreases 8 - i,
        {
            let x = Ops::<Scalar, i32>::shl(self.vals[i], rhs);
            vals.push(x);
            i += 1;
        }
        I32x8 { vals }
    }

    fn shr(&self, rhs: i32) -> Self {
        let mut vals: Vec<i32> = Vec::new();
        let mut i: usize = 0;
        while i < 8
            invariant
                self.wf(),
                0 <= rhs < 32,
                i <= 8,
                vals@.len() == i,
                forall|j: int|
                    0 <= j < i ==> #[trigger] vals@[j] == lanes::shr_i32(
                        self.lanes()[j],
                        rhs as u32,
                    ),
            decreases 8 - i,
        {
            let x = Ops::<Scalar, i32>::shr(self.vals[i], rhs);
            vals.push(x);
            i += 1;
        }
        I32x8 { vals }
    }

    fn bit_and(&self, o: &Self) -> Self {
        let mut vals: Vec<i32> = Vec::new();
        let mut i: usize = 0;
        while i < 8
            invariant
                self.wf(),
                o.wf(),
                i <= 8,
                vals@.len() == i,
                forall|j: int|
                    0 <= j < i ==> #[trigger] vals@[j] == (self.lanes()[j] & o.lanes()[j]),
            decreases 8 - i,
        {
            let x = self.vals[i] & o.vals[i];
            vals.push(x);
            i += 1;
        }
        I32x8 { vals }
    }

    fn bit_or(&self, o: &Self) -> Self {
        let mut vals: Vec<i32> = Vec::new();
        let mut i: usize = 0;
        while i < 8
            invariant
                self.wf(),
                o.wf(),
                i <= 8,
                vals@.len() == i,
                forall|j: int|
                    0 <= j < i ==> #[trigger] vals@[j] == (self.lanes()[j] | o.lanes()[j]),
            decreases 8 - i,
        {
            let x = self.vals[i] | o.vals[i];
            vals.push(x);
            i += 1;
        }
        I32x8 { vals }
    }

    fn bit_xor(&self, o: &Self) -> Self {
        let mut vals: Vec<i32> = Vec::new();
        let mut i: usize = 0;
        while i < 8
            invariant
                self.wf(),
                o.wf(),
                i <= 8,
                vals@.len() == i,
                forall|j: int|
                    0 <= j < i ==> #[trigger] vals@[j] == (self.lanes()[j] ^ o.lanes()[j]),
            decreases 8 - i,
        {
            let x = self.vals[i] ^ o.vals[i];
            vals.push(x);
            i += 1;
        }
        I32x8 { vals }
    }

    fn bit_andnot(&self, o: &Self) -> Self {
        let mut vals: Vec<i32> = Vec::new();
        let mut i: usize = 0;
        while i < 8
            invariant
                self.wf(),
                o.wf(),
                i <= 8,
                vals@.len() == i,
                forall|j: int|
                    0 <= j < i ==> #[trigger] vals@[j] == (!self.lanes()[j] & o.lanes()[j]),
            decreases 8 - i,
        {
            proof {
                lanes::lemma_not_xor_i32(self.vals@[i as int]);
            }
            let x = (self.vals[i] ^ -1i32) & o.vals[i];
            vals.push(x);
            i += 1;
        }
        I32x8 { vals }
    }

    fn bit_not(&self) -> Self {
        let mut vals: Vec<i32> = Vec::new();
        let mut i: usize = 0;
        while i < 8
            invariant
                self.wf(),
                i <= 8,
                vals@.len() == i,
                forall|j: int| 0 <= j < i ==> #[trigger] vals@[j] == !self.lanes()[j],
            decreases 8 - i,
        {
            proof {
                lanes::lemma_not_xor_i32(self.vals@[i as int]);
            }
            let x = self.vals[i] ^ -1i32;
            vals.push(x);
            i += 1;
        }
        I32x8 { vals }
    }
}

impl I32x8 {
    /// Sign-extension of every lane to 64 bits, as a pair of vectors:
    /// the low half of the lanes widened, then the high half.
    pub fn extend_i64(&self) -> (r: (I64x4, I64x4))
        requires
            self.wf(),
        ensures
            r.0.wf(),
            r.1.wf(),
            r.0.lanes().len() == 4,
            r.1.lanes().len() == 4,
            forall|j: int|
                0 <= j < 4 ==> #[trigger] r.0.lanes()[j] == lanes::widen_i32(self.lanes()[j]),
            forall|j: int|
                0 <= j < 4 ==> #[trigger] r.1.lanes()[j] == lanes::widen_i32(
                    self.lanes()[4 + j],
                ),
    {
        let mut lo: Vec<i64> = Vec::new();
        let mut hi: Vec<i64> = Vec::new();
        let mut i: usize = 0;
        while i < 4
            invariant
                self.wf(),
                i <= 4,
                lo@.len() == i,
                hi@.len() == i,
                forall|j: int|
                    0 <= j < i ==> #[trigger] lo@[j] == lanes::widen_i32(self.lanes()[j]),
                forall|j: int|
                    0 <= j < i ==> #[trigger] hi@[j] == lanes::widen_i32(self.lanes()[4 + j]),
            decreases 4 - i,
        {
            let (a, _) = Ops::<Scalar, i32>::extend_i64(self.vals[i]);
            let (b, _) = Ops::<Scalar, i32>::extend_i64(self.vals[4 + i]);
            lo.push(a);
            hi.push(b);
            i += 1;
        }
        (I64x4 { vals: lo }, I64x4 { vals: hi })
    }

    /// Zero-extension of every lane to 64 bits; see
    /// [`Self::extend_i64`].
    pub fn unsigned_extend_i64(&self) -> (r: (I64x4, I64x4))
        requires
            self.wf(),
        ensures
            r.0.wf(),
            r.1.wf(),
            r.0.lanes().len() == 4,
            r.1.lanes().len() == 4,
            forall|j: int|
                0 <= j < 4 ==> #[trigger] r.0.lanes()[j] == lanes::uwiden_i32(self.lanes()[j]),
            forall|j: int|
                0 <= j < 4 ==> #[trigger] r.1.lanes()[j] == lanes::uwiden_i32(
                    self.lanes()[4 + j],
                ),
    {
        let mut lo: Vec<i64> = Vec::new();
        let mut hi: Vec<i64> = Vec::new();
        let mut i: usize = 0;
        while i < 4
            invariant
                self.wf(),
                i <= 4,
                lo@.len() == i,
                hi@.len() == i,
                forall|j: int|
                    0 <= j < i ==> #[trigger] lo@[j] == lanes::uwiden_i32(self.lanes()[j]),
                forall|j: int|
                    0 <= j < i ==> #[trigger] hi@[j] == lanes::uwiden_i32(self.lanes()[4 + j]),
            decreases 4 - i,
        {
            let (a, _) = Ops::<Scalar, i32>::unsigned_extend_i64(self.vals[i]);
            let (b, _) = Ops::<Scalar, i32>::unsigned_extend_i64(self.vals[4 + i]);
            lo.push(a);
            hi.push(b);
            i += 1;
        }
        (I64x4 { vals: lo }, I64x4 { vals: hi })
    }
}

/// 4 64-bit lanes: one 256-bit vector.
#[derive(Clone, Debug)]
pub struct I64x4 {
    vals: Vec<i64>,
}

impl SimdInt64 for I64x4 {
    closed spec fn lanes(&self) -> Seq<i64> {
        self.vals@
    }

    closed spec fn wf(&self) -> bool {
        self.vals@.len() == 4
    }

    open spec fn spec_width() -> nat {
        4
    }

    proof fn lemma_wf(&self) {
    }

    fn width() -> usize {
        4
    }

    fn zeroes() -> Self {
        let mut vals: Vec<i64> = Vec::new();
        let mut i: usize = 0;
        while i < 4
            invariant
                i <= 4,
                vals@.len() == i,
                forall|j: int| 0 <= j < i ==> #[trigger] vals@[j] == 0i64,
            decreases 4 - i,
        {
            vals.push(Ops::<Scalar, i64>::zeroes());
            i += 1;
        }
        I64x4 { vals }
    }

    fn set1(val: i64) -> Self {
        let mut vals: Vec<i64> = Vec::new();
        let mut i: usize = 0;
        while i < 4
            invariant
                i <= 4,
                vals@.len() == i,
                forall|j: int| 0 <= j < i ==> #[trigger] vals@[j] == val,
            decreases 4 - i,
        {
            vals.push(Ops::<Scalar, i64>::set1(val));
            i += 1;
        }
        I64x4 { vals }
    }

    fn load_unaligned(src: &Vec<i64>, offset: usize) -> Self {
        let n: usize = src.len();
        let mut vals: Vec<i64> = Vec::new();
        let mut i: usize = 0;
        while i < 4
            invariant
                n == src@.len(),
                offset + 4 <= n,
                i <= 4,
                vals@.len() == i,
                forall|j: int| 0 <= j < i ==> #[trigger] vals@[j] == src@[offset + j],
            decreases 4 - i,
        {
            vals.push(src[offset + i]);
            i += 1;
        }
        proof {
            assert(vals@ =~= src@.subrange(offset as int, offset as int + 4));
        }
        I64x4 { vals }
    }

    fn store_unaligned(&self, dst: &mut Vec<i64>, offset: usize) {
        let n: usize = dst.len();
        let mut i: usize = 0;
        while i < 4
            invariant
                self.wf(),
                n == dst@.len(),
                offset + 4 <= n,
                dst@.len() == old(dst)@.len(),
                i <= 4,
                forall|j: int|
                    offset <= j < offset + i ==> #[trigger] dst@[j] == self.lanes()[j - offset],
                forall|j: int|
                    0 <= j < dst@.len() && !(offset <= j < offset + i) ==> #[trigger] dst@[j]
                        == old(dst)@[j],
            decreases 4 - i,
        {
            dst.set(offset + i, self.vals[i]);
            i += 1;
        }
    }

    fn load_aligned(src: &Vec<i64>, offset: usize) -> Self {
        Self::load_unaligned(src, offset)
    }

    fn store_aligned(&self, dst: &mut Vec<i64>, offset: usize) {
        self.store_unaligned(dst, offset);
    }

    fn get_lane(&self, i: usize) -> i64 {
        self.vals[i]
    }

    fn set_lane(&mut self, i: usize, val: i64) {
        self.vals.set(i, val);
    }

    fn add(&self, o: &Self) -> Self {
        let mut vals: Vec<i64> = Vec::new();
        let mut i: usize = 0;
        while i < 4
            invariant
                self.wf(),
                o.wf(),
                i <= 4,
                vals@.len() == i,
                forall|j: int|
                    0 <= j < i ==> #[trigger] vals@[j] == lanes::add_i64(self.lanes()[j], o.lanes()[j]),
            decreases 4 - i,
        {
            let x = Ops::<Scalar, i64>::add(self.vals[i], o.vals[i]);
            vals.push(x);
            i += 1;
        }
        I64x4 { vals }
    }

    fn sub(&self, o: &Self) -> Self {
        let mut vals: Vec<i64> = Vec::new();
        let mut i: usize = 0;
        while i < 4
            invariant
                self.wf(),
                o.wf(),
                i <= 4,
                vals@.len() == i,
                forall|j: int|
                    0 <= j < i ==> #[trigger] vals@[j] == lanes::sub_i64(self.lanes()[j], o.lanes()[j]),
            decreases 4 - i,
        {
            let x = Ops::<Scalar, i64>::sub(self.vals[i], o.vals[i]);
            vals.push(x);
            i += 1;
        }
        I64x4 { vals }
    }

    fn mul(&self, o: &Self) -> Self {
        let mut vals: Vec<i64> = Vec::new();
        let mut i: usize = 0;
        while i < 4
            invariant
                self.wf(),
                o.wf(),
                i <= 4,
                vals@.len() == i,
                forall|j: int|
                    0 <= j < i ==> #[trigger] vals@[j] == lanes::mul_i64(self.lanes()[j], o.lanes()[j]),
            decreases 4 - i,
        {
            let x = Ops::<Scalar, i64>::mul(self.vals[i], o.vals[i]);
            vals.push(x);
            i += 1;
        }
        I64x4 { vals }
    }

    fn min(&self, o: &Self) -> Self {
        let mut vals: Vec<i64> = Vec::new();
        let mut i: usize = 0;
        while i < 4
            invariant
                self.wf(),
                o.wf(),
                i <= 4,
                vals@.len() == i,
                forall|j: int|
                    0 <= j < i ==> #[trigger] vals@[j] == lanes::min_i64(self.lanes()[j], o.lanes()[j]),
            decreases 4 - i,
        {
            let x = Ops::<Scalar, i64>::min(self.vals[i], o.vals[i]);
            vals.push(x);
            i += 1;
        }
        I64x4 { vals }
    }

    fn max(&self, o: &Self) -> Self {
        let mut vals: Vec<i64> = Vec::new();
        let mut i: usize = 0;
        while i < 4
            invariant
                self.wf(),
                o.wf(),
                i <= 4,
                vals@.len() == i,
                forall|j: int|
                    0 <= j < i ==> #[trigger] vals@[j] == lanes::max_i64(self.lanes()[j], o.lanes()[j]),
            decreases 4 - i,
        {
            let x = Ops::<Scalar, i64>::max(self.vals[i], o.vals[i]);
            vals.push(x);
            i += 1;
        }
        I64x4 { vals }
    }

    fn abs(&self) -> Self {
        let mut vals: Vec<i64> = Vec::new();
        let mut i: usize = 0;
        while i < 4
            invariant
                self.wf(),
                i <= 4,
                vals@.len() == i,
                forall|j: int|
                    0 <= j < i ==> #[trigger] vals@[j] == lanes::abs_i64(self.lanes()[j]),
            decreases 4 - i,
        {
            vals.push(Ops::<Scalar, i64>::abs(self.vals[i]));
            i += 1;
        }
        I64x4 { vals }
    }

    fn eq(&self, o: &Self) -> Self {
        let mut vals: Vec<i64> = Vec::new();
        let mut i: usize = 0;
        while i < 4
            invariant
                self.wf(),
                o.wf(),
                i <= 4,
                vals@.len() == i,
                forall|j: int|
                    0 <= j < i ==> #[trigger] vals@[j] == lanes::mask_i64(self.lanes()[j] == o.lanes()[j]),
            decreases 4 - i,
        {
            let x = Ops::<Scalar, i64>::eq(self.vals[i], o.vals[i]);
            vals.push(x);
            i += 1;
        }
        I64x4 { vals }
    }

    fn neq(&self, o: &Self) -> Self {
        let mut vals: Vec<i64> = Vec::new();
        let mut i: usize = 0;
        while i < 4
            invariant
                self.wf(),
                o.wf(),
                i <= 4,
                vals@.len() == i,
                forall|j: int|
                    0 <= j < i ==> #[trigger] vals@[j] == lanes::mask_i64(self.lanes()[j] != o.lanes()[j]),
            decreases 4 - i,
        {
            let x = Ops::<Scalar, i64>::neq(self.vals[i], o.vals[i]);
            vals.push(x);
            i += 1;
        }
        I64x4 { vals }
    }

    fn lt(&self, o: &Self) -> Self {
        let mut vals: Vec<i64> = Vec::new();
        let mut i: usize = 0;
        while i < 4
            invariant
                self.wf(),
                o.wf(),
                i <= 4,
                vals@.len() == i,
                forall|j: int|
                    0 <= j < i ==> #[trigger] vals@[j] == lanes::mask_i64(self.lanes()[j] < o.lanes()[j]),
            decreases 4 - i,
        {
            let x = Ops::<Scalar, i64>::lt(self.vals[i], o.vals[i]);
            vals.push(x);
            i += 1;
        }
        I64x4 { vals }
    }

    fn lte(&self, o: &Self) -> Self {
        let mut vals: Vec<i64> = Vec::new();
        let mut i: usize = 0;
        while i < 4
            invariant
                self.wf(),
                o.wf(),
                i <= 4,
                vals@.len() == i,
                forall|j: int|
                    0 <= j < i ==> #[trigger] vals@[j] == lanes::mask_i64(self.lanes()[j] <= o.lanes()[j]),
            decreases 4 - i,
        {
            let x = Ops::<Scalar, i64>::lte(self.vals[i], o.vals[i]);
            vals.push(x);
            i += 1;
        }
        I64x4 { vals }
    }

    fn gt(&self, o: &Self) -> Self {
        let mut vals: Vec<i64> = Vec::new();
        let mut i: usize = 0;
        while i < 4
            invariant
                self.wf(),
                o.wf(),
                i <= 4,
                vals@.len() == i,
                forall|j: int|
                    0 <= j < i ==> #[trigger] vals@[j] == lanes::mask_i64(self.lanes()[j] > o.lanes()[j]),
            decreases 4 - i,
        {
            let x = Ops::<Scalar, i64>::gt(self.vals[i], o.vals[i]);
            vals.push(x);
            i += 1;
        }
        I64x4 { vals }
    }

    fn gte(&self, o: &Self) -> Self {
        let mut vals: Vec<i64> = Vec::new();
        let mut i: usize = 0;
        while i < 4
            invariant
                self.wf(),
                o.wf(),
                i <= 4,
                vals@.len() == i,
                forall|j: int|
                    0 <= j < i ==> #[trigger] vals@[j] == lanes::mask_i64(self.lanes()[j] >= o.lanes()[j]),
            decreases 4 - i,
        {
            let x = Ops::<Scalar, i64>::gte(self.vals[i], o.vals[i]);
            vals.push(x);
            i += 1;
        }
        I64x4 { vals }
    }

    fn blendv(&self, o: &Self, mask: &Self) -> Self {
        let mut vals: Vec<i64> = Vec::new();
        let mut i: usize = 0;
        while i < 4
            invariant
                self.wf(),
                o.wf(),
                mask.wf(),
                i <= 4,
                vals@.len() == i,
                forall|j: int|
                    0 <= j < i ==> #[trigger] vals@[j] == lanes::blend_i64(
                        self.lanes()[j],
                        o.lanes()[j],
                        mask.lanes()[j],
                    ),
            decreases 4 - i,
        {
            let x = Ops::<Scalar, i64>::blendv(self.vals[i], o.vals[i], mask.vals[i]);
            vals.push(x);
            i += 1;
        }
        I64x4 { vals }
    }

    fn shl(&self, rhs: i32) -> Self {
        let mut vals: Vec<i64> = Vec::new();
        let mut i: usize = 0;
        while i < 4
            invariant
                self.wf(),
                0 <= rhs < 64,
                i <= 4,
                vals@.len() == i,
                forall|j: int|
                    0 <= j < i ==> #[trigger] vals@[j] == lanes::shl_i64(
                        self.lanes()[j],
                        rhs as u32,
                    ),
            decreases 4 - i,
        {
            let x = Ops::<Scalar, i64>::shl(self.vals[i], rhs);
            vals.push(x);
            i += 1;
        }
        I64x4 { vals }
    }

    fn shr(&self, rhs: i32) -> Self {
        let mut vals: Vec<i64> = Vec::new();
        let mut i: usize = 0;
        while i < 4
            invariant
                self.wf(),
                0 <= rhs < 64,
                i <= 4,
                vals@.len() == i,
                forall|j: int|
                    0 <= j < i ==> #[trigger] vals@[j] == lanes::shr_i64(
                        self.lanes()[j],
                        rhs as u32,
                    ),
            decreases 4 - i,
        {
            let x = Ops::<Scalar, i64>::shr(self.vals[i], rhs);
            vals.push(x);
            i += 1;
        }
        I64x4 { vals }
    }

    fn bit_and(&self, o: &Self) -> Self {
        let mut vals: Vec<i64> = Vec::new();
        let mut i: usize = 0;
        while i < 4
            invariant
                self.wf(),
                o.wf(),
                i <= 4,
                vals@.len() == i,
                forall|j: int|
                    0 <= j < i ==> #[trigger] vals@[j] == (self.lanes()[j] & o.lanes()[j]),
            decreases 4 - i,
        {
            let x = self.vals[i] & o.vals[i];
            vals.push(x);
            i += 1;
        }
        I64x4 { vals }
    }

    fn bit_or(&self, o: &Self) -> Self {
        let mut vals: Vec<i64> = Vec::new();
        let mut i: usize = 0;
        while i < 4
            invariant
                self.wf(),
                o.wf(),
                i <= 4,
                vals@.len() == i,
                forall|j: int|
                    0 <= j < i ==> #[trigger] vals@[j] == (self.lanes()[j] | o.lanes()[j]),
            decreases 4 - i,
        {
            let x = self.vals[i] | o.vals[i];
            vals.push(x);
            i += 1;
        }
        I64x4 { vals }
    }

    fn bit_xor(&self, o: &Self) -> Self {
        let mut vals: Vec<i64> = Vec::new();
        let mut i: usize = 0;
        while i < 4
            invariant
                self.wf(),
                o.wf(),
                i <= 4,
                vals@.len() == i,
                forall|j: int|
                    0 <= j < i ==> #[trigger] vals@[j] == (self.lanes()[j] ^ o.lanes()[j]),
            decreases 4 - i,
        {
            let x = self.vals[i] ^ o.vals[i];
            vals.push(x);
            i += 1;
        }
        I64x4 { vals }
    }

    fn bit_andnot(&self, o: &Self) -> Self {
        let mut vals: Vec<i64> = Vec::new();
        let mut i: usize = 0;
        while i < 4
            invariant
                self.wf(),
                o.wf(),
                i <= 4,
                vals@.len() == i,
                forall|j: int|
                    0 <= j < i ==> #[trigger] vals@[j] == (!self.lanes()[j] & o.lanes()[j]),
            decreases 4 - i,
        {
            proof {
                lanes::lemma_not_xor_i64(self.vals@[i as int]);
            }
            let x = (self.vals[i] ^ -1i64) & o.vals[i];
            vals.push(x);
            i += 1;
        }
        I64x4 { vals }
    }

    fn bit_not(&self) -> Self {
        let mut vals: Vec<i64> = Vec::new();
        let mut i: usize = 0;
        while i < 4
            invariant
                self.wf(),
                i <= 4,
                vals@.len() == i,
                forall|j: int| 0 <= j < i ==> #[trigger] vals@[j] == !self.lanes()[j],
            decreases 4 - i,
        {
            proof {
                lanes::lemma_not_xor_i64(self.vals@[i as int]);
            }
            let x = self.vals[i] ^ -1i64;
            vals.push(x);
            i += 1;
        }
        I64x4 { vals }
    }

    fn horizontal_add(&self) -> i64 {
        let mut acc: i64 = 0;
        let mut i: usize = 0;
        proof {
            assert(self.lanes().take(0) =~= Seq::<i64>::empty());
        }
        while i < 4
            invariant
                self.wf(),
                i <= 4,
                acc == lanes::hsum_i64(self.lanes().take(i as int)),
            decreases 4 - i,
        {
            let x = Ops::<Scalar, i64>::add(acc, self.vals[i]);
            proof {
                let t1 = self.lanes().take(i as int + 1);
                assert(t1.drop_last() =~= self.lanes().take(i as int));
                assert(t1.last() == self.lanes()[i as int]);
            }
            acc = x;
            i += 1;
        }
        proof {
            assert(self.lanes().take(4) =~= self.lanes());
        }
        acc
    }
}

impl I8x32 {
    /// Every lane shifted left by a compile-time count; the same
    /// semantics as the run-time-count shift.
    pub fn shl_const<const BY: u32>(&self) -> (r: Self)
        requires
            self.wf(),
            BY < 8,
        ensures
            r.wf(),
            r.lanes().len() == self.lanes().len(),
            forall|j: int|
                0 <= j < r.lanes().len() ==> #[trigger] r.lanes()[j] == lanes::shl_i8(
                    self.lanes()[j],
                    BY,
                ),
    {
        self.shl(BY as i32)
    }

    /// Every lane logically shifted right by a compile-time count; the
    /// same semantics as the run-time-count shift.
    pub fn shr_const<const BY: u32>(&self) -> (r: Self)
        requires
            self.wf(),
            BY < 8,
        ensures
            r.wf(),
            r.lanes().len() == self.lanes().len(),
            forall|j: int|
                0 <= j < r.lanes().len() ==> #[trigger] r.lanes()[j] == lanes::shr_i8(
                    self.lanes()[j],
                    BY,
                ),
    {
        self.shr(BY as i32)
    }
}

impl I16x16 {
    /// Every lane shifted left by a compile-time count; the same
    /// semantics as the run-time-count shift.
    pub fn shl_const<const BY: u32>(&self) -> (r: Self)
        requires
            self.wf(),
            BY < 16,
        ensures
            r.wf(),
            r.lanes().len() == self.lanes().len(),
            forall|j: int|
                0 <= j < r.lanes().len() ==> #[trigger] r.lanes()[j] == lanes::shl_i16(
                    self.lanes()[j],
                    BY,
                ),
    {
        self.shl(BY as i32)
    }

    /// Every lane logically shifted right by a compile-time count; the
    /// same semantics as the run-time-count shift.
    pub fn shr_const<const BY: u32>(&self) -> (r: Self)
        requires
            self.wf(),
            BY < 16,
        ensures
            r.wf(),
            r.lanes().len() == self.lanes().len(),
            forall|j: int|
                0 <= j < r.lanes().len() ==> #[trigger] r.lanes()[j] == lanes::shr_i16(
                    self.lanes()[j],
                    BY,
                ),
    {
        self.shr(BY as i32)
    }
}

impl I32x8 {
    /// Every lane shifted left by a compile-time count; the same
    /// semantics as the run-time-count shift.
    pub fn shl_const<const BY: u32>(&self) -> (r: Self)
        requires
            self.wf(),
            BY < 32,
        ensures
            r.wf(),
            r.lanes().len() == self.lanes().len(),
            forall|j: int|
                0 <= j < r.lanes().len() ==> #[trigger] r.lanes()[j] == lanes::shl_i32(
                    self.lanes()[j],
                    BY,
                ),
    {
        self.shl(BY as i32)
    }

    /// Every lane logically shifted right by a compile-time count; the
    /// same semantics as the run-time-count shift.
    pub fn shr_const<const BY: u32>(&self) -> (r: Self)
        requires
            self.wf(),
            BY < 32,
        ensures
            r.wf(),
            r.lanes().len() == self.lanes().len(),
            forall|j: int|
                0 <= j < r.lanes().len() ==> #[trigger] r.lanes()[j] == lanes::shr_i32(
                    self.lanes()[j],
                    BY,
                ),
    {
        self.shr(BY as i32)
    }
}

impl I64x4 {
    /// Every lane shifted left by a compile-time count; the same
    /// semantics as the run-time-count shift.
    pub fn shl_const<const BY: u32>(&self) -> (r: Self)
        requires
            self.wf(),
            BY < 64,
        ensures
            r.wf(),
            r.lanes().len() == self.lanes().len(),
            forall|j: int|
                0 <= j < r.lanes().len() ==> #[trigger] r.lanes()[j] == lanes::shl_i64(
                    self.lanes()[j],
                    BY,
                ),
    {
        self.shl(BY as i32)
    }

    /// Every lane logically shifted right by a compile-time count; the
    /// same semantics as the run-time-count shift.
    pub fn shr_const<const BY: u32>(&self) -> (r: Self)
        requires
            self.wf(),
            BY < 64,
        ensures
            r.wf(),
            r.lanes().len() == self.lanes().len(),
            forall|j: int|
                0 <= j < r.lanes().len() ==> #[trigger] r.lanes()[j] == lanes::shr_i64(
                    self.lanes()[j],
                    BY,
                ),
    {
        self.shr(BY as i32)
    }
}

} // verus!
