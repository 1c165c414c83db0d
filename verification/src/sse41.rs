//! Vector types at the 128-bit width.
//!
//! Two lane layouts of a 128-bit register: four 32-bit lanes and two 64-bit
//! lanes.  They satisfy the same vector-engine contract as the other
//! widths, with the same lane semantics.

use vstd::prelude::*;

use crate::base::{SimdInt32, SimdInt64};
use crate::engines::scalar::Scalar;
use crate::lanes;
use crate::ops::Ops;

verus! {

/// Four 32-bit lanes: one 128-bit vector.
#[derive(Clone, Debug)]
pub struct I32x4_41 {
    vals: Vec<i32>,
}

impl SimdInt32 for I32x4_41 {
    closed spec fn lanes(&self) -> Seq<i32> {
        self.vals@
    }

    closed spec fn wf(&self) -> bool {
        self.vals@.len() == 4
    }

    open spec fn spec_width() -> nat {
        4
    }

    proof fn lemma_wf(&self) {
    }

    fn width() -> usize {
        4
    }

    fn zeroes() -> Self {
        let mut vals: Vec<i32> = Vec::new();
        let mut i: usize = 0;
        while i < 4
            invariant
                i <= 4,
                vals@.len() == i,
                forall|j: int| 0 <= j < i ==> #[trigger] vals@[j] == 0i32,
            decreases 4 - i,
        {
            vals.push(Ops::<Scalar, i32>::zeroes());
            i += 1;
        }
        I32x4_41 { vals }
    }

    fn set1(val: i32) -> Self {
        let mut vals: Vec<i32> = Vec::new();
        let mut i: usize = 0;
        while i < 4
            invariant
                i <= 4,
                vals@.len() == i,
                forall|j: int| 0 <= j < i ==> #[trigger] vals@[j] == val,
            decreases 4 - i,
        {
            vals.push(Ops::<Scalar, i32>::set1(val));
            i += 1;
        }
        I32x4_41 { vals }
    }

    fn load_unaligned(src: &Vec<i32>, offset: usize) -> Self {
        let n: usize = src.len();
        let mut vals: Vec<i32> = Vec::new();
        let mut i: usize = 0;
        while i < 4
            invariant
                n == src@.len(),
                offset + 4 <= n,
                i <= 4,
                vals@.len() == i,
                forall|j: int| 0 <= j < i ==> #[trigger] vals@[j] == src@[offset + j],
            decreases 4 - i,
        {
            vals.push(src[offset + i]);
            i += 1;
        }
        proof {
            assert(vals@ =~= src@.subrange(offset as int, offset as int + 4));
        }
        I32x4_41 { vals }
    }

    fn store_unaligned(&self, dst: &mut Vec<i32>, offset: usize) {
        let n: usize = dst.len();
        let mut i: usize = 0;
        while i < 4
            invariant
                self.wf(),
                n == dst@.len(),
                offset + 4 <= n,
                dst@.len() == old(dst)@.len(),
                i <= 4,
                forall|j: int|
                    offset <= j < offset + i ==> #[trigger] dst@[j] == self.lanes()[j - offset],
                forall|j: int|
                    0 <= j < dst@.len() && !(offset <= j < offset + i) ==> #[trigger] dst@[j]
                        == old(dst)@[j],
            decreases 4 - i,
        {
            dst.set(offset + i, self.vals[i]);
            i += 1;
        }
    }

    fn load_aligned(src: &Vec<i32>, offset: usize) -> Self {
        Self::load_unaligned(src, offset)
    }

    fn store_aligned(&self, dst: &mut Vec<i32>, offset: usize) {
        self.store_unaligned(dst, offset);
    }

    fn get_lane(&self, i: usize) -> i32 {
        self.vals[i]
    }

    fn set_lane(&mut self, i: usize, val: i32) {
        self.vals.set(i, val);
    }

    fn add(&self, o: &Self) -> Self {
        let mut vals: Vec<i32> = Vec::new();
        let mut i: usize = 0;
        while i < 4
            invariant
                self.wf(),
                o.wf(),
                i <= 4,
                vals@.len() == i,
                forall|j: int|
                    0 <= j < i ==> #[trigger] vals@[j] == lanes::add_i32(self.lanes()[j], o.lanes()[j]),
            decreases 4 - i,
        {
            let x = Ops::<Scalar, i32>::add(self.vals[i], o.vals[i]);
            vals.push(x);
            i += 1;
        }
        I32x4_41 { vals }
    }

    fn sub(&self, o: &Self) -> Self {
        let mut vals: Vec<i32> = Vec::new();
        let mut i: usize = 0;
        while i < 4
            invariant
                self.wf(),
                o.wf(),
                i <= 4,
                vals@.len() == i,
                forall|j: int|
                    0 <= j < i ==> #[trigger] vals@[j] == lanes::sub_i32(self.lanes()[j], o.lanes()[j]),
            decreases 4 - i,
        {
            let x = Ops::<Scalar, i32>::sub(self.vals[i], o.vals[i]);
            vals.push(x);
            i += 1;
        }
        I32x4_41 { vals }
    }

    fn mul(&self, o: &Self) -> Self {
        let mut vals: Vec<i32> = Vec::new();
        let mut i: usize = 0;
        while i < 4
            invariant
                self.wf(),
                o.wf(),
                i <= 4,
                vals@.len() == i,
                forall|j: int|
                    0 <= j < i ==> #[trigger] vals@[j] == lanes::mul_i32(self.lanes()[j], o.lanes()[j]),
            decreases 4 - i,
        {
            let x = Ops::<Scalar, i32>::mul(self.vals[i], o.vals[i]);
            vals.push(x);
            i += 1;
        }
        I32x4_41 { vals }
    }

    fn min(&self, o: &Self) -> Self {
        let mut vals: Vec<i32> = Vec::new();
        let mut i: usize = 0;
        while i < 4
            invariant
                self.wf(),
                o.wf(),
                i <= 4,
                vals@.len() == i,
                forall|j: int|
                    0 <= j < i ==> #[trigger] vals@[j] == lanes::min_i32(self.lanes()[j], o.lanes()[j]),
            decreases 4 - i,
        {
            let x = Ops::<Scalar, i32>::min(self.vals[i], o.vals[i]);
            vals.push(x);
            i += 1;
        }
        I32x4_41 { vals }
    }

    fn max(&self, o: &Self) -> Self {
        let mut vals: Vec<i32> = Vec::new();
        let mut i: usize = 0;
        while i < 4
            invariant
                self.wf(),
                o.wf(),
                i <= 4,
                vals@.len() == i,
                forall|j: int|
                    0 <= j < i ==> #[trigger] vals@[j] == lanes::max_i32(self.lanes()[j], o.lanes()[j]),
            decreases 4 - i,
        {
            let x = Ops::<Scalar, i32>::max(self.vals[i], o.vals[i]);
            vals.push(x);
            i += 1;
        }
        I32x4_41 { vals }
    }

    fn abs(&self) -> Self {
        let mut vals: Vec<i32> = Vec::new();
        let mut i: usize = 0;
        while i < 4
            invariant
                self.wf(),
                i <= 4,
                vals@.len() == i,
                forall|j: int|
                    0 <= j < i ==> #[trigger] vals@[j] == lanes::abs_i32(self.lanes()[j]),
            decreases 4 - i,
        {
            vals.push(Ops::<Scalar, i32>::abs(self.vals[i]));
            i += 1;
        }
        I32x4_41 { vals }
    }

    fn eq(&self, o: &Self) -> Self {
        let mut vals: Vec<i32> = Vec::new();
        let mut i: usize = 0;
        while i < 4
            invariant
                self.wf(),
                o.wf(),
                i <= 4,
                vals@.len() == i,
                forall|j: int|
                    0 <= j < i ==> #[trigger] vals@[j] == lanes::mask_i32(self.lanes()[j] == o.lanes()[j]),
            decreases 4 - i,
        {
            let x = Ops::<Scalar, i32>::eq(self.vals[i], o.vals[i]);
            vals.push(x);
            i += 1;
        }
        I32x4_41 { vals }
    }

    fn neq(&self, o: &Self) -> Self {
        let mut vals: Vec<i32> = Vec::new();
        let mut i: usize = 0;
        while i < 4
            invariant
                self.wf(),
                o.wf(),
                i <= 4,
                vals@.len() == i,
                forall|j: int|
                    0 <= j < i ==> #[trigger] vals@[j] == lanes::mask_i32(self.lanes()[j] != o.lanes()[j]),
            decreases 4 - i,
        {
            let x = Ops::<Scalar, i32>::neq(self.vals[i], o.vals[i]);
            vals.push(x);
            i += 1;
        }
        I32x4_41 { vals }
    }

    fn lt(&self, o: &Self) -> Self {
        let mut vals: Vec<i32> = Vec::new();
        let mut i: usize = 0;
        while i < 4
            invariant
                self.wf(),
                o.wf(),
                i <= 4,
                vals@.len() == i,
                forall|j: int|
                    0 <= j < i ==> #[trigger] vals@[j] == lanes::mask_i32(self.lanes()[j] < o.lanes()[j]),
            decreases 4 - i,
        {
            let x = Ops::<Scalar, i32>::lt(self.vals[i], o.vals[i]);
            vals.push(x);
            i += 1;
        }
        I32x4_41 { vals }
    }

    fn lte(&self, o: &Self) -> Self {
        let mut vals: Vec<i32> = Vec::new();
        let mut i: usize = 0;
        while i < 4
            invariant
                self.wf(),
                o.wf(),
                i <= 4,
                vals@.len() == i,
                forall|j: int|
                    0 <= j < i ==> #[trigger] vals@[j] == lanes::mask_i32(self.lanes()[j] <= o.lanes()[j]),
            decreases 4 - i,
        {
            let x = Ops::<Scalar, i32>::lte(self.vals[i], o.vals[i]);
            vals.push(x);
            i += 1;
        }
        I32x4_41 { vals }
    }

    fn gt(&self, o: &Self) -> Self {
        let mut vals: Vec<i32> = Vec::new();
        let mut i: usize = 0;
        while i < 4
            invariant
                self.wf(),
                o.wf(),
                i <= 4,
                vals@.len() == i,
                forall|j: int|
                    0 <= j < i ==> #[trigger] vals@[j] == lanes::mask_i32(self.lanes()[j] > o.lanes()[j]),
            decreases 4 - i,
        {
            let x = Ops::<Scalar, i32>::gt(self.vals[i], o.vals[i]);
            vals.push(x);
            i += 1;
        }
        I32x4_41 { vals }
    }

    fn gte(&self, o: &Self) -> Self {
        let mut vals: Vec<i32> = Vec::new();
        let mut i: usize = 0;
        while i < 4
            invariant
                self.wf(),
                o.wf(),
                i <= 4,
                vals@.len() == i,
                forall|j: int|
                    0 <= j < i ==> #[trigger] vals@[j] == lanes::mask_i32(self.lanes()[j] >= o.lanes()[j]),
            decreases 4 - i,
        {
            let x = Ops::<Scalar, i32>::gte(self.vals[i], o.vals[i]);
            vals.push(x);
            i += 1;
        }
        I32x4_41 { vals }
    }

    fn blendv(&self, o: &Self, mask: &Self) -> Self {
        let mut vals: Vec<i32> = Vec::new();
        let mut i: usize = 0;
        while i < 4
            invariant
                self.wf(),
                o.wf(),
                mask.wf(),
                i <= 4,
                vals@.len() == i,
                forall|j: int|
                    0 <= j < i ==> #[trigger] vals@[j] == lanes::blend_i32(
                        self.lanes()[j],
                        o.lanes()[j],
                        mask.lanes()[j],
                    ),
            decreases 4 - i,
        {
            let x = Ops::<Scalar, i32>::blendv(self.vals[i], o.vals[i], mask.vals[i]);
            vals.push(x);
            i += 1;
        }
        I32x4_41 { vals }
    }

    fn shl(&self, rhs: i32) -> Self {
        let mut vals: Vec<i32> = Vec::new();
        let mut i: usize = 0;
        while i < 4
            invariant
                self.wf(),
                0 <= rhs < 32,
                i <= 4,
                vals@.len() == i,
                forall|j: int|
                    0 <= j < i ==> #[trigger] vals@[j] == lanes::shl_i32(
                        self.lanes()[j],
                        rhs as u32,
                    ),
            decreases 4 - i,
        {
            let x = Ops::<Scalar, i32>::shl(self.vals[i], rhs);
            vals.push(x);
            i += 1;
        }
        I32x4_41 { vals }
    }

    fn shr(&self, rhs: i32) -> Self {
        let mut vals: Vec<i32> = Vec::new();
        let mut i: usize = 0;
        while i < 4
            invariant
                self.wf(),
                0 <= rhs < 32,
                i <= 4,
                vals@.len() == i,
                forall|j: int|
                    0 <= j < i ==> #[trigger] vals@[j] == lanes::shr_i32(
                        self.lanes()[j],
                        rhs as u32,
                    ),
            decreases 4 - i,
        {
            let x = Ops::<Scalar, i32>::shr(self.vals[i], rhs);
            vals.push(x);
            i += 1;
        }
        I32x4_41 { vals }
    }

    fn bit_and(&self, o: &Self) -> Self {
        let mut vals: Vec<i32> = Vec::new();
        let mut i: usize = 0;
        while i < 4
            invariant
                self.wf(),
                o.wf(),
                i <= 4,
                vals@.len() == i,
                forall|j: int|
                    0 <= j < i ==> #[trigger] vals@[j] == (self.lanes()[j] & o.lanes()[j]),
            decreases 4 - i,
        {
            let x = self.vals[i] & o.vals[i];
            vals.push(x);
            i += 1;
        }
        I32x4_41 { vals }
    }

    fn bit_or(&self, o: &Self) -> Self {
        let mut vals: Vec<i32> = Vec::new();
        let mut i: usize = 0;
        while i < 4
            invariant
                self.wf(),
                o.wf(),
                i <= 4,
                vals@.len() == i,
                forall|j: int|
                    0 <= j < i ==> #[trigger] vals@[j] == (self.lanes()[j] | o.lanes()[j]),
            decreases 4 - i,
        {
            let x = self.vals[i] | o.vals[i];
            vals.push(x);
            i += 1;
        }
        I32x4_41 { vals }
    }

    fn bit_xor(&self, o: &Self) -> Self {
        let mut vals: Vec<i32> = Vec::new();
        let mut i: usize = 0;
        while i < 4
            invariant
                self.wf(),
                o.wf(),
                i <= 4,
                vals@.len() == i,
                forall|j: int|
                    0 <= j < i ==> #[trigger] vals@[j] == (self.lanes()[j] ^ o.lanes()[j]),
            decreases 4 - i,
        {
            let x = self.vals[i] ^ o.vals[i];
            vals.push(x);
            i += 1;
        }
        I32x4_41 { vals }
    }

    fn bit_andnot(&self, o: &Self) -> Self {
        let mut vals: Vec<i32> = Vec::new();
        let mut i: usize = 0;
        while i < 4
            invariant
                self.wf(),
                o.wf(),
                i <= 4,
                vals@.len() == i,
                forall|j: int|
                    0 <= j < i ==> #[trigger] vals@[j] == (!self.lanes()[j] & o.lanes()[j]),
            decreases 4 - i,
        {
            proof {
                lanes::lemma_not_xor_i32(self.vals@[i as int]);
            }
            let x = (self.vals[i] ^ -1i32) & o.vals[i];
            vals.push(x);
            i += 1;
        }
        I32x4_41 { vals }
    }

    fn bit_not(&self) -> Self {
        let mut vals: Vec<i32> = Vec::new();
        let mut i: usize = 0;
        while i < 4
            invariant
                self.wf(),
                i <= 4,
                vals@.len() == i,
                forall|j: int| 0 <= j < i ==> #[trigger] vals@[j] == !self.lanes()[j],
            decreases 4 - i,
        {
            proof {
                lanes::lemma_not_xor_i32(self.vals@[i as int]);
            }
            let x = self.vals[i] ^ -1i32;
            vals.push(x);
            i += 1;
        }
        I32x4_41 { vals }
    }
}

impl I32x4_41 {
    /// Sign-extension of every lane to 64 bits, as a pair of vectors:
    /// the low half of the lanes widened, then the high half.
    pub fn extend_i64(&self) -> (r: (I64x2_41, I64x2_41))
        requires
            self.wf(),
        ensures
            r.0.wf(),
            r.1.wf(),
            r.0.lanes().len() == 2,
            r.1.lanes().len() == 2,
            forall|j: int|
                0 <= j < 2 ==> #[trigger] r.0.lanes()[j] == lanes::widen_i32(self.lanes()[j]),
            forall|j: int|
                0 <= j < 2 ==> #[trigger] r.1.lanes()[j] == lanes::widen_i32(
                    self.lanes()[2 + j],
                ),
    {
        let mut lo: Vec<i64> = Vec::new();
        let mut hi: Vec<i64> = Vec::new();
        let mut i: usize = 0;
        while i < 2
            invariant
                self.wf(),
                i <= 2,
                lo@.len() == i,
                hi@.len() == i,
                forall|j: int|
                    0 <= j < i ==> #[trigger] lo@[j] == lanes::widen_i32(self.lanes()[j]),
                forall|j: int|
                    0 <= j < i ==> #[trigger] hi@[j] == lanes::widen_i32(self.lanes()[2 + j]),
            decreases 2 - i,
        {
            let (a, _) = Ops::<Scalar, i32>::extend_i64(self.vals[i]);
            let (b, _) = Ops::<Scalar, i32>::extend_i64(self.vals[2 + i]);
            lo.push(a);
            hi.push(b);
            i += 1;
        }
        (I64x2_41 { vals: lo }, I64x2_41 { vals: hi })
    }

    /// Zero-extension of every lane to 64 bits; see
    /// [`Self::extend_i64`].
    pub fn unsigned_extend_i64(&self) -> (r: (I64x2_41, I64x2_41))
        requires
            self.wf(),
        ensures
            r.0.wf(),
            r.1.wf(),
            r.0.lanes().len() == 2,
            r.1.lanes().len() == 2,
            forall|j: int|
                0 <= j < 2 ==> #[trigger] r.0.lanes()[j] == lanes::uwiden_i32(self.lanes()[j]),
            forall|j: int|
                0 <= j < 2 ==> #[trigger] r.1.lanes()[j] == lanes::uwiden_i32(
                    self.lanes()[2 + j],
                ),
    {
        let mut lo: Vec<i64> = Vec::new();
        let mut hi: Vec<i64> = Vec::new();
        let mut i: usize = 0;
        while i < 2
            invariant
                self.wf(),
                i <= 2,
                lo@.len() == i,
                hi@.len() == i,
                forall|j: int|
                    0 <= j < i ==> #[trigger] lo@[j] == lanes::uwiden_i32(self.lanes()[j]),
                forall|j: int|
                    0 <= j < i ==> #[trigger] hi@[j] == lanes::uwiden_i32(self.lanes()[2 + j]),
            decreases 2 - i,
        {
            let (a, _) = Ops::<Scalar, i32>::unsigned_extend_i64(self.vals[i]);
            let (b, _) = Ops::<Scalar, i32>::unsigned_extend_i64(self.vals[2 + i]);
            lo.push(a);
            hi.push(b);
            i += 1;
        }
        (I64x2_41 { vals: lo }, I64x2_41 { vals: hi })
    }
}

/// Two 64-bit lanes: one 128-bit vector.
#[derive(Clone, Debug)]
pub struct I64x2_41 {
    vals: Vec<i64>,
}

impl SimdInt64 for I64x2_41 {
    closed spec fn lanes(&self) -> Seq<i64> {
        self.vals@
    }

    closed spec fn wf(&self) -> bool {
        self.vals@.len() == 2
    }

    open spec fn spec_width() -> nat {
        2
    }

    proof fn lemma_wf(&self) {
    }

    fn width() -> usize {
        2
    }

    fn zeroes() -> Self {
        let mut vals: Vec<i64> = Vec::new();
        let mut i: usize = 0;
        while i < 2
            invariant
                i <= 2,
                vals@.len() == i,
                forall|j: int| 0 <= j < i ==> #[trigger] vals@[j] == 0i64,
            decreases 2 - i,
        {
            vals.push(Ops::<Scalar, i64>::zeroes());
            i += 1;
        }
        I64x2_41 { vals }
    }

    fn set1(val: i64) -> Self {
        let mut vals: Vec<i64> = Vec::new();
        let mut i: usize = 0;
        while i < 2
            invariant
                i <= 2,
                vals@.len() == i,
                forall|j: int| 0 <= j < i ==> #[trigger] vals@[j] == val,
            decreases 2 - i,
        {
            vals.push(Ops::<Scalar, i64>::set1(val));
            i += 1;
        }
        I64x2_41 { vals }
    }

    fn load_unaligned(src: &Vec<i64>, offset: usize) -> Self {
        let n: usize = src.len();
        let mut vals: Vec<i64> = Vec::new();
        let mut i: usize = 0;
        while i < 2
            invariant
                n == src@.len(),
                offset + 2 <= n,
                i <= 2,
                vals@.len() == i,
                forall|j: int| 0 <= j < i ==> #[trigger] vals@[j] == src@[offset + j],
            decreases 2 - i,
        {
            vals.push(src[offset + i]);
            i += 1;
        }
        proof {
            assert(vals@ =~= src@.subrange(offset as int, offset as int + 2));
        }
        I64x2_41 { vals }
    }

    fn store_unaligned(&self, dst: &mut Vec<i64>, offset: usize) {
        let n: usize = dst.len();
        let mut i: usize = 0;
        while i < 2
            invariant
                self.wf(),
                n == dst@.len(),
                offset + 2 <= n,
                dst@.len() == old(dst)@.len(),
                i <= 2,
                forall|j: int|
                    offset <= j < offset + i ==> #[trigger] dst@[j] == self.lanes()[j - offset],
                forall|j: int|
                    0 <= j < dst@.len() && !(offset <= j < offset + i) ==> #[trigger] dst@[j]
                        == old(dst)@[j],
            decreases 2 - i,
        {
            dst.set(offset + i, self.vals[i]);
            i += 1;
        }
    }

    fn load_aligned(src: &Vec<i64>, offset: usize) -> Self {
        Self::load_unaligned(src, offset)
    }

    fn store_aligned(&self, dst: &mut Vec<i64>, offset: usize) {
        self.store_unaligned(dst, offset);
    }

    fn get_lane(&self, i: usize) -> i64 {
        self.vals[i]
    }

    fn set_lane(&mut self, i: usize, val: i64) {
        self.vals.set(i, val);
    }

    fn add(&self, o: &Self) -> Self {
        let mut vals: Vec<i64> = Vec::new();
        let mut i: usize = 0;
        while i < 2
            invariant
                self.wf(),
                o.wf(),
                i <= 2,
                vals@.len() == i,
                forall|j: int|
                    0 <= j < i ==> #[trigger] vals@[j] == lanes::add_i64(self.lanes()[j], o.lanes()[j]),
            decreases 2 - i,
        {
            let x = Ops::<Scalar, i64>::add(self.vals[i], o.vals[i]);
            vals.push(x);
            i += 1;
        }
        I64x2_41 { vals }
    }

    fn sub(&self, o: &Self) -> Self {
        let mut vals: Vec<i64> = Vec::new();
        let mut i: usize = 0;
        while i < 2
            invariant
                self.wf(),
                o.wf(),
                i <= 2,
                vals@.len() == i,
                forall|j: int|
                    0 <= j < i ==> #[trigger] vals@[j] == lanes::sub_i64(self.lanes()[j], o.lanes()[j]),
            decreases 2 - i,
        {
            let x = Ops::<Scalar, i64>::sub(self.vals[i], o.vals[i]);
            vals.push(x);
            i += 1;
        }
        I64x2_41 { vals }
    }

    fn mul(&self, o: &Self) -> Self {
        let mut vals: Vec<i64> = Vec::new();
        let mut i: usize = 0;
        while i < 2
            invariant
                self.wf(),
                o.wf(),
                i <= 2,
                vals@.len() == i,
                forall|j: int|
                    0 <= j < i ==> #[trigger] vals@[j] == lanes::mul_i64(self.lanes()[j], o.lanes()[j]),
            decreases 2 - i,
        {
            let x = Ops::<Scalar, i64>::mul(self.vals[i], o.vals[i]);
            vals.push(x);
            i += 1;
        }
        I64x2_41 { vals }
    }

    fn min(&self, o: &Self) -> Self {
        let mut vals: Vec<i64> = Vec::new();
        let mut i: usize = 0;
        while i < 2
            invariant
                self.wf(),
                o.wf(),
                i <= 2,
                vals@.len() == i,
                forall|j: int|
                    0 <= j < i ==> #[trigger] vals@[j] == lanes::min_i64(self.lanes()[j], o.lanes()[j]),
            decreases 2 - i,
        {
            let x = Ops::<Scalar, i64>::min(self.vals[i], o.vals[i]);
            vals.push(x);
            i += 1;
        }
        I64x2_41 { vals }
    }

    fn max(&self, o: &Self) -> Self {
        let mut vals: Vec<i64> = Vec::new();
        let mut i: usize = 0;
        while i < 2
            invariant
                self.wf(),
                o.wf(),
                i <= 2,
                vals@.len() == i,
                forall|j: int|
                    0 <= j < i ==> #[trigger] vals@[j] == lanes::max_i64(self.lanes()[j], o.lanes()[j]),
            decreases 2 - i,
        {
            let x = Ops::<Scalar, i64>::max(self.vals[i], o.vals[i]);
            vals.push(x);
            i += 1;
        }
        I64x2_41 { vals }
    }

    fn abs(&self) -> Self {
        let mut vals: Vec<i64> = Vec::new();
        let mut i: usize = 0;
        while i < 2
            invariant
                self.wf(),
                i <= 2,
                vals@.len() == i,
                forall|j: int|
                    0 <= j < i ==> #[trigger] vals@[j] == lanes::abs_i64(self.lanes()[j]),
            decreases 2 - i,
        {
            vals.push(Ops::<Scalar, i64>::abs(self.vals[i]));
            i += 1;
        }
        I64x2_41 { vals }
    }

    fn eq(&self, o: &Self) -> Self {
        let mut vals: Vec<i64> = Vec::new();
        let mut i: usize = 0;
        while i < 2
            invariant
                self.wf(),
                o.wf(),
                i <= 2,
                vals@.len() == i,
                forall|j: int|
                    0 <= j < i ==> #[trigger] vals@[j] == lanes::mask_i64(self.lanes()[j] == o.lanes()[j]),
            decreases 2 - i,
        {
            let x = Ops::<Scalar, i64>::eq(self.vals[i], o.vals[i]);
            vals.push(x);
            i += 1;
        }
        I64x2_41 { vals }
    }

    fn neq(&self, o: &Self) -> Self {
        let mut vals: Vec<i64> = Vec::new();
        let mut i: usize = 0;
        while i < 2
            invariant
                self.wf(),
                o.wf(),
                i <= 2,
                vals@.len() == i,
                forall|j: int|
                    0 <= j < i ==> #[trigger] vals@[j] == lanes::mask_i64(self.lanes()[j] != o.lanes()[j]),
            decreases 2 - i,
        {
            let x = Ops::<Scalar, i64>::neq(self.vals[i], o.vals[i]);
            vals.push(x);
            i += 1;
        }
        I64x2_41 { vals }
    }

    fn lt(&self, o: &Self) -> Self {
        let mut vals: Vec<i64> = Vec::new();
        let mut i: usize = 0;
        while i < 2
            invariant
                self.wf(),
                o.wf(),
                i <= 2,
                vals@.len() == i,
                forall|j: int|
                    0 <= j < i ==> #[trigger] vals@[j] == lanes::mask_i64(self.lanes()[j] < o.lanes()[j]),
            decreases 2 - i,
        {
            let x = Ops::<Scalar, i64>::lt(self.vals[i], o.vals[i]);
            vals.push(x);
            i += 1;
        }
        I64x2_41 { vals }
    }

    fn lte(&self, o: &Self) -> Self {
        let mut vals: Vec<i64> = Vec::new();
        let mut i: usize = 0;
        while i < 2
            invariant
                self.wf(),
                o.wf(),
                i <= 2,
                vals@.len() == i,
                forall|j: int|
                    0 <= j < i ==> #[trigger] vals@[j] == lanes::mask_i64(self.lanes()[j] <= o.lanes()[j]),
            decreases 2 - i,
        {
            let x = Ops::<Scalar, i64>::lte(self.vals[i], o.vals[i]);
            vals.push(x);
            i += 1;
        }
        I64x2_41 { vals }
    }

    fn gt(&self, o: &Self) -> Self {
        let mut vals: Vec<i64> = Vec::new();
        let mut i: usize = 0;
        while i < 2
            invariant
                self.wf(),
                o.wf(),
                i <= 2,
                vals@.len() == i,
                forall|j: int|
                    0 <= j < i ==> #[trigger] vals@[j] == lanes::mask_i64(self.lanes()[j] > o.lanes()[j]),
            decreases 2 - i,
        {
            let x = Ops::<Scalar, i64>::gt(self.vals[i], o.vals[i]);
            vals.push(x);
            i += 1;
        }
        I64x2_41 { vals }
    }

    fn gte(&self, o: &Self) -> Self {
        let mut vals: Vec<i64> = Vec::new();
        let mut i: usize = 0;
        while i < 2
            invariant
                self.wf(),
                o.wf(),
                i <= 2,
                vals@.len() == i,
                forall|j: int|
                    0 <= j < i ==> #[trigger] vals@[j] == lanes::mask_i64(self.lanes()[j] >= o.lanes()[j]),
            decreases 2 - i,
        {
            let x = Ops::<Scalar, i64>::gte(self.vals[i], o.vals[i]);
            vals.push(x);
            i += 1;
        }
        I64x2_41 { vals }
    }

    fn blendv(&self, o: &Self, mask: &Self) -> Self {
        let mut vals: Vec<i64> = Vec::new();
        let mut i: usize = 0;
        while i < 2
            invariant
                self.wf(),
                o.wf(),
                mask.wf(),
                i <= 2,
                vals@.len() == i,
                forall|j: int|
                    0 <= j < i ==> #[trigger] vals@[j] == lanes::blend_i64(
                        self.lanes()[j],
                        o.lanes()[j],
                        mask.lanes()[j],
                    ),
            decreases 2 - i,
        {
            let x = Ops::<Scalar, i64>::blendv(self.vals[i], o.vals[i], mask.vals[i]);
            vals.push(x);
            i += 1;
        }
        I64x2_41 { vals }
    }

    fn shl(&self, rhs: i32) -> Self {
        let mut vals: Vec<i64> = Vec::new();
        let mut i: usize = 0;
        while i < 2
            invariant
                self.wf(),
                0 <= rhs < 64,
                i <= 2,
                vals@.len() == i,
                forall|j: int|
                    0 <= j < i ==> #[trigger] vals@[j] == lanes::shl_i64(
                        self.lanes()[j],
                        rhs as u32,
                    ),
            decreases 2 - i,
        {
            let x = Ops::<Scalar, i64>::shl(self.vals[i], rhs);
            vals.push(x);
            i += 1;
        }
        I64x2_41 { vals }
    }

    fn shr(&self, rhs: i32) -> Self {
        let mut vals: Vec<i64> = Vec::new();
        let mut i: usize = 0;
        while i < 2
            invariant
                self.wf(),
                0 <= rhs < 64,
                i <= 2,
                vals@.len() == i,
                forall|j: int|
                    0 <= j < i ==> #[trigger] vals@[j] == lanes::shr_i64(
                        self.lanes()[j],
                        rhs as u32,
                    ),
            decreases 2 - i,
        {
            let x = Ops::<Scalar, i64>::shr(self.vals[i], rhs);
            vals.push(x);
            i += 1;
        }
        I64x2_41 { vals }
    }

    fn bit_and(&self, o: &Self) -> Self {
        let mut vals: Vec<i64> = Vec::new();
        let mut i: usize = 0;
        while i < 2
            invariant
                self.wf(),
                o.wf(),
                i <= 2,
                vals@.len() == i,
                forall|j: int|
                    0 <= j < i ==> #[trigger] vals@[j] == (self.lanes()[j] & o.lanes()[j]),
            decreases 2 - i,
        {
            let x = self.vals[i] & o.vals[i];
            vals.push(x);
            i += 1;
        }
        I64x2_41 { vals }
    }

    fn bit_or(&self, o: &Self) -> Self {
        let mut vals: Vec<i64> = Vec::new();
        let mut i: usize = 0;
        while i < 2
            invariant
                self.wf(),
                o.wf(),
                i <= 2,
                vals@.len() == i,
                forall|j: int|
                    0 <= j < i ==> #[trigger] vals@[j] == (self.lanes()[j] | o.lanes()[j]),
            decreases 2 - i,
        {
            let x = self.vals[i] | o.vals[i];
            vals.push(x);
            i += 1;
        }
        I64x2_41 { vals }
    }

    fn bit_xor(&self, o: &Self) -> Self {
        let mut vals: Vec<i64> = Vec::new();
        let mut i: usize = 0;
        while i < 2
            invariant
                self.wf(),
                o.wf(),
                i <= 2,
                vals@.len() == i,
                forall|j: int|
                    0 <= j < i ==> #[trigger] vals@[j] == (self.lanes()[j] ^ o.lanes()[j]),
            decreases 2 - i,
        {
            let x = self.vals[i] ^ o.vals[i];
            vals.push(x);
            i += 1;
        }
        I64x2_41 { vals }
    }

    fn bit_andnot(&self, o: &Self) -> Self {
        let mut vals: Vec<i64> = Vec::new();
        let mut i: usize = 0;
        while i < 2
            invariant
                self.wf(),
                o.wf(),
                i <= 2,
                vals@.len() == i,
                forall|j: int|
                    0 <= j < i ==> #[trigger] vals@[j] == (!self.lanes()[j] & o.lanes()[j]),
            decreases 2 - i,
        {
            proof {
                lanes::lemma_not_xor_i64(self.vals@[i as int]);
            }
            let x = (self.vals[i] ^ -1i64) & o.vals[i];
            vals.push(x);
            i += 1;
        }
        I64x2_41 { vals }
    }

    fn bit_not(&self) -> Self {
        let mut vals: Vec<i64> = Vec::new();
        let mut i: usize = 0;
        while i < 2
            invariant
                self.wf(),
                i <= 2,
                vals@.len() == i,
                forall|j: int| 0 <= j < i ==> #[trigger] vals@[j] == !self.lanes()[j],
            decreases 2 - i,
        {
            proof {
                lanes::lemma_not_xor_i64(self.vals@[i as int]);
            }
            let x = self.vals[i] ^ -1i64;
            vals.push(x);
            i += 1;
        }
        I64x2_41 { vals }
    }

    fn horizontal_add(&self) -> i64 {
        let mut acc: i64 = 0;
        let mut i: usize = 0;
        proof {
            assert(self.lanes().take(0) =~= Seq::<i64>::empty());
        }
        while i < 2
            invariant
                self.wf(),
                i <= 2,
                acc == lanes::hsum_i64(self.lanes().take(i as int)),
            decreases 2 - i,
        {
            let x = Ops::<Scalar, i64>::add(acc, self.vals[i]);
            proof {
                let t1 = self.lanes().take(i as int + 1);
                assert(t1.drop_last() =~= self.lanes().take(i as int));
                assert(t1.last() == self.lanes()[i as int]);
            }
            acc = x;
            i += 1;
        }
        proof {
            assert(self.lanes().take(2) =~= self.lanes());
        }
        acc
    }
}

impl I32x4_41 {
    /// Every lane shifted left by a compile-time count; the same
    /// semantics as the run-time-count shift.
    pub fn shl_const<const BY: u32>(&self) -> (r: Self)
        requires
            self.wf(),
            BY < 32,
        ensures
            r.wf(),
            r.lanes().len() == self.lanes().len(),
            forall|j: int|
                0 <= j < r.lanes().len() ==> #[trigger] r.lanes()[j] == lanes::shl_i32(
                    self.lanes()[j],
                    BY,
                ),
    {
        self.shl(BY as i32)
    }

    /// Every lane logically shifted right by a compile-time count; the
    /// same semantics as the run-time-count shift.
    pub fn shr_const<const BY: u32>(&self) -> (r: Self)
        requires
            self.wf(),
            BY < 32,
        ensures
            r.wf(),
            r.lanes().len() == self.lanes().len(),
            forall|j: int|
                0 <= j < r.lanes().len() ==> #[trigger] r.lanes()[j] == lanes::shr_i32(
                    self.lanes()[j],
                    BY,
                ),
    {
        self.shr(BY as i32)
    }
}

impl I64x2_41 {
    /// Every lane shifted left by a compile-time count; the same
    /// semantics as the run-time-count shift.
    pub fn shl_const<const BY: u32>(&self) -> (r: Self)
        requires
            self.wf(),
            BY < 64,
        ensures
            r.wf(),
            r.lanes().len() == self.lanes().len(),
            forall|j: int|
                0 <= j < r.lanes().len() ==> #[trigger] r.lanes()[j] == lanes::shl_i64(
                    self.lanes()[j],
                    BY,
                ),
    {
        self.shl(BY as i32)
    }

    /// Every lane logically shifted right by a compile-time count; the
    /// same semantics as the run-time-count shift.
    pub fn shr_const<const BY: u32>(&self) -> (r: Self)
        requires
            self.wf(),
            BY < 64,
        ensures
            r.wf(),
            r.lanes().len() == self.lanes().len(),
            forall|j: int|
                0 <= j < r.lanes().len() ==> #[trigger] r.lanes()[j] == lanes::shr_i64(
                    self.lanes()[j],
                    BY,
                ),
    {
        self.shr(BY as i32)
    }
}

} // verus!
