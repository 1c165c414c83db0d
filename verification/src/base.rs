//! The vector-engine contract, one trait per element kind.
//!
//! A generic numeric routine is written against these traits and against
//! [`crate::Simd`], which names an implementing vector type per kind for
//! each engine.  The contracts here are the whole interface: a routine
//! verified against them behaves identically on every engine.

use vstd::prelude::*;

use crate::lanes;

verus! {

/// What a vector of 8-bit lanes must provide, whatever the engine.
///
/// `lanes` is the mathematical value of the vector; `wf` says the vector
/// holds exactly `spec_width` lanes.  Every operation's contract is stated
/// lane by lane through the functions of [`crate::lanes`], so any two
/// implementing types agree on every input: that is the portability
/// contract between engines.
///
/// Comparisons produce masks (all bits of a lane set or clear), and
/// `blendv` keeps the first operand where the mask lane is zero and takes
/// the second where it is nonzero.
pub trait SimdInt8: Sized {
    /// The lane values, lowest lane first.
    spec fn lanes(&self) -> Seq<i8>;

    /// Well-formed: the vector holds exactly `spec_width` lanes.
    spec fn wf(&self) -> bool;

    /// The fixed lane count of this vector type.
    spec fn spec_width() -> nat;

    /// A well-formed vector holds `spec_width` lanes, and there is at
    /// least one.
    proof fn lemma_wf(&self)
        requires
            self.wf(),
        ensures
            self.lanes().len() == Self::spec_width(),
            Self::spec_width() >= 1,
    ;

    /// The lane count, as a runtime value.
    fn width() -> (w: usize)
        ensures
            w == Self::spec_width(),
    ;

    /// The vector with every lane zero.
    fn zeroes() -> (r: Self)
        ensures
            r.wf(),
            r.lanes().len() == Self::spec_width(),
            forall|j: int| 0 <= j < r.lanes().len() ==> #[trigger] r.lanes()[j] == 0i8,
    ;

    /// The vector with every lane equal to `val`.
    fn set1(val: i8) -> (r: Self)
        ensures
            r.wf(),
            r.lanes().len() == Self::spec_width(),
            forall|j: int| 0 <= j < r.lanes().len() ==> #[trigger] r.lanes()[j] == val,
    ;

    /// The vector holding the `spec_width` values of `src` starting at
    /// `offset`.
    fn load_unaligned(src: &Vec<i8>, offset: usize) -> (r: Self)
        requires
            offset + Self::spec_width() <= src@.len(),
        ensures
            r.wf(),
            r.lanes() == src@.subrange(offset as int, offset + Self::spec_width()),
    ;

    /// Writes the lanes over the `spec_width` values of `dst` starting at
    /// `offset`; the rest of `dst` is untouched.
    fn store_unaligned(&self, dst: &mut Vec<i8>, offset: usize)
        requires
            self.wf(),
            offset + Self::spec_width() <= old(dst)@.len(),
        ensures
            final(dst)@.len() == old(dst)@.len(),
            forall|j: int|
                offset <= j < offset + Self::spec_width() ==> #[trigger] final(dst)@[j]
                    == self.lanes()[j - offset],
            forall|j: int|
                0 <= j < final(dst)@.len() && !(offset <= j < offset + Self::spec_width())
                    ==> #[trigger] final(dst)@[j] == old(dst)@[j],
    ;

    /// The aligned load: in this model it behaves exactly as
    /// [`Self::load_unaligned`]; a hardware back end additionally demands
    /// an address on the register boundary, which is the caller's
    /// obligation and is never checked.
    fn load_aligned(src: &Vec<i8>, offset: usize) -> (r: Self)
        requires
            offset + Self::spec_width() <= src@.len(),
        ensures
            r.wf(),
            r.lanes() == src@.subrange(offset as int, offset + Self::spec_width()),
    ;

    /// The aligned store; see [`Self::load_aligned`] for the alignment
    /// obligation.
    fn store_aligned(&self, dst: &mut Vec<i8>, offset: usize)
        requires
            self.wf(),
            offset + Self::spec_width() <= old(dst)@.len(),
        ensures
            final(dst)@.len() == old(dst)@.len(),
            forall|j: int|
                offset <= j < offset + Self::spec_width() ==> #[trigger] final(dst)@[j]
                    == self.lanes()[j - offset],
            forall|j: int|
                0 <= j < final(dst)@.len() && !(offset <= j < offset + Self::spec_width())
                    ==> #[trigger] final(dst)@[j] == old(dst)@[j],
    ;

    /// The lane at index `i`.
    fn get_lane(&self, i: usize) -> (r: i8)
        requires
            self.wf(),
            i < Self::spec_width(),
        ensures
            r == self.lanes()[i as int],
    ;

    /// Replaces the lane at index `i` by `val`.
    fn set_lane(&mut self, i: usize, val: i8)
        requires
            old(self).wf(),
            i < Self::spec_width(),
        ensures
            final(self).wf(),
            final(self).lanes() == old(self).lanes().update(i as int, val),
    ;

    /// Lane-wise addition wrapping modulo 2^8.
    fn add(&self, o: &Self) -> (r: Self)
        requires
            self.wf(),
            o.wf(),
        ensures
            r.wf(),
            r.lanes().len() == self.lanes().len(),
            forall|j: int|
                0 <= j < r.lanes().len() ==> #[trigger] r.lanes()[j] == lanes::add_i8(
                    self.lanes()[j],
                    o.lanes()[j],
                ),
    ;

    /// Lane-wise subtraction wrapping modulo 2^8.
    fn sub(&self, o: &Self) -> (r: Self)
        requires
            self.wf(),
            o.wf(),
        ensures
            r.wf(),
            r.lanes().len() == self.lanes().len(),
            forall|j: int|
                0 <= j < r.lanes().len() ==> #[trigger] r.lanes()[j] == lanes::sub_i8(
                    self.lanes()[j],
                    o.lanes()[j],
                ),
    ;

    /// Lane-wise multiplication wrapping modulo 2^8.
    fn mul(&self, o: &Self) -> (r: Self)
        requires
            self.wf(),
            o.wf(),
        ensures
            r.wf(),
            r.lanes().len() == self.lanes().len(),
            forall|j: int|
                0 <= j < r.lanes().len() ==> #[trigger] r.lanes()[j] == lanes::mul_i8(
                    self.lanes()[j],
                    o.lanes()[j],
                ),
    ;

    /// Lane-wise minimum.
    fn min(&self, o: &Self) -> (r: Self)
        requires
            self.wf(),
            o.wf(),
        ensures
            r.wf(),
            r.lanes().len() == self.lanes().len(),
            forall|j: int|
                0 <= j < r.lanes().len() ==> #[trigger] r.lanes()[j] == lanes::min_i8(
                    self.lanes()[j],
                    o.lanes()[j],
                ),
    ;

    /// Lane-wise maximum.
    fn max(&self, o: &Self) -> (r: Self)
        requires
            self.wf(),
            o.wf(),
        ensures
            r.wf(),
            r.lanes().len() == self.lanes().len(),
            forall|j: int|
                0 <= j < r.lanes().len() ==> #[trigger] r.lanes()[j] == lanes::max_i8(
                    self.lanes()[j],
                    o.lanes()[j],
                ),
    ;

    /// Lane-wise absolute value, wrapping: the most negative lane value is
    /// its own absolute value, never a trap.
    fn abs(&self) -> (r: Self)
        requires
            self.wf(),
        ensures
            r.wf(),
            r.lanes().len() == self.lanes().len(),
            forall|j: int|
                0 <= j < r.lanes().len() ==> #[trigger] r.lanes()[j] == lanes::abs_i8(
                    self.lanes()[j],
                ),
    ;

    /// Lane-wise equality mask.
    fn eq(&self, o: &Self) -> (r: Self)
        requires
            self.wf(),
            o.wf(),
        ensures
            r.wf(),
            r.lanes().len() == self.lanes().len(),
            forall|j: int|
                0 <= j < r.lanes().len() ==> #[trigger] r.lanes()[j] == lanes::mask_i8(
                    self.lanes()[j] == o.lanes()[j],
                ),
    ;

    /// Lane-wise inequality mask.
    fn neq(&self, o: &Self) -> (r: Self)
        requires
            self.wf(),
            o.wf(),
        ensures
            r.wf(),
            r.lanes().len() == self.lanes().len(),
            forall|j: int|
                0 <= j < r.lanes().len() ==> #[trigger] r.lanes()[j] == lanes::mask_i8(
                    self.lanes()[j] != o.lanes()[j],
                ),
    ;

    /// Lane-wise less-than mask.
    fn lt(&self, o: &Self) -> (r: Self)
        requires
            self.wf(),
            o.wf(),
        ensures
            r.wf(),
            r.lanes().len() == self.lanes().len(),
            forall|j: int|
                0 <= j < r.lanes().len() ==> #[trigger] r.lanes()[j] == lanes::mask_i8(
                    self.lanes()[j] < o.lanes()[j],
                ),
    ;

    /// Lane-wise less-or-equal mask.
    fn lte(&self, o: &Self) -> (r: Self)
        requires
            self.wf(),
            o.wf(),
        ensures
            r.wf(),
            r.lanes().len() == self.lanes().len(),
            forall|j: int|
                0 <= j < r.lanes().len() ==> #[trigger] r.lanes()[j] == lanes::mask_i8(
                    self.lanes()[j] <= o.lanes()[j],
                ),
    ;

    /// Lane-wise greater-than mask.
    fn gt(&self, o: &Self) -> (r: Self)
        requires
            self.wf(),
            o.wf(),
        ensures
            r.wf(),
            r.lanes().len() == self.lanes().len(),
            forall|j: int|
                0 <= j < r.lanes().len() ==> #[trigger] r.lanes()[j] == lanes::mask_i8(
                    self.lanes()[j] > o.lanes()[j],
                ),
    ;

    /// Lane-wise greater-or-equal mask.
    fn gte(&self, o: &Self) -> (r: Self)
        requires
            self.wf(),
            o.wf(),
        ensures
            r.wf(),
            r.lanes().len() == self.lanes().len(),
            forall|j: int|
                0 <= j < r.lanes().len() ==> #[trigger] r.lanes()[j] == lanes::mask_i8(
                    self.lanes()[j] >= o.lanes()[j],
                ),
    ;

    /// Lane-wise selection: where a mask lane is zero the lane of `self` is
    /// kept, where it is nonzero the lane of `o` is taken.
    fn blendv(&self, o: &Self, mask: &Self) -> (r: Self)
        requires
            self.wf(),
            o.wf(),
            mask.wf(),
        ensures
            r.wf(),
            r.lanes().len() == self.lanes().len(),
            forall|j: int|
                0 <= j < r.lanes().len() ==> #[trigger] r.lanes()[j] == lanes::blend_i8(
                    self.lanes()[j],
                    o.lanes()[j],
                    mask.lanes()[j],
                ),
    ;

    /// Every lane shifted left by the same count.
    fn shl(&self, rhs: i32) -> (r: Self)
        requires
            self.wf(),
            0 <= rhs < 8,
        ensures
            r.wf(),
            r.lanes().len() == self.lanes().len(),
            forall|j: int|
                0 <= j < r.lanes().len() ==> #[trigger] r.lanes()[j] == lanes::shl_i8(
                    self.lanes()[j],
                    rhs as u32,
                ),
    ;

    /// Every lane shifted right by the same count, logically: zeros are
    /// shifted in whatever the sign.
    fn shr(&self, rhs: i32) -> (r: Self)
        requires
            self.wf(),
            0 <= rhs < 8,
        ensures
            r.wf(),
            r.lanes().len() == self.lanes().len(),
            forall|j: int|
                0 <= j < r.lanes().len() ==> #[trigger] r.lanes()[j] == lanes::shr_i8(
                    self.lanes()[j],
                    rhs as u32,
                ),
    ;

    /// Lane-wise bitwise and.
    fn bit_and(&self, o: &Self) -> (r: Self)
        requires
            self.wf(),
            o.wf(),
        ensures
            r.wf(),
            r.lanes().len() == self.lanes().len(),
            forall|j: int|
                0 <= j < r.lanes().len() ==> #[trigger] r.lanes()[j] == (self.lanes()[j]
                    & o.lanes()[j]),
    ;

    /// Lane-wise bitwise or.
    fn bit_or(&self, o: &Self) -> (r: Self)
        requires
            self.wf(),
            o.wf(),
        ensures
            r.wf(),
            r.lanes().len() == self.lanes().len(),
            forall|j: int|
                0 <= j < r.lanes().len() ==> #[trigger] r.lanes()[j] == (self.lanes()[j]
                    | o.lanes()[j]),
    ;

    /// Lane-wise bitwise exclusive or.
    fn bit_xor(&self, o: &Self) -> (r: Self)
        requires
            self.wf(),
            o.wf(),
        ensures
            r.wf(),
            r.lanes().len() == self.lanes().len(),
            forall|j: int|
                0 <= j < r.lanes().len() ==> #[trigger] r.lanes()[j] == (self.lanes()[j]
                    ^ o.lanes()[j]),
    ;

    /// Lane-wise bitwise complement.
    fn bit_not(&self) -> (r: Self)
        requires
            self.wf(),
        ensures
            r.wf(),
            r.lanes().len() == self.lanes().len(),
            forall|j: int|
                0 <= j < r.lanes().len() ==> #[trigger] r.lanes()[j] == !self.lanes()[j],
    ;

    /// Lane-wise and-not: the lanes of `o` with the bits of `self` cleared.
    fn bit_andnot(&self, o: &Self) -> (r: Self)
        requires
            self.wf(),
            o.wf(),
        ensures
            r.wf(),
            r.lanes().len() == self.lanes().len(),
            forall|j: int|
                0 <= j < r.lanes().len() ==> #[trigger] r.lanes()[j] == (!self.lanes()[j]
                    & o.lanes()[j]),
    ;

    /// One bit per lane of a mask vector: bit `j` of the result is set
    /// exactly when mask lane `j` is all-ones.
    fn get_mask(&self) -> (r: u32)
        requires
            self.wf(),
            forall|j: int|
                0 <= j < self.lanes().len() ==> #[trigger] self.lanes()[j] == 0i8
                    || self.lanes()[j] == -1i8,
        ensures
            r == lanes::movemask_i8(self.lanes()),
    ;

    /// Whether any lane is nonzero.
    fn is_truthy(&self) -> (r: bool)
        requires
            self.wf(),
        ensures
            r == exists|j: int| 0 <= j < self.lanes().len() && #[trigger] self.lanes()[j] != 0i8,
    ;
}

/// What a vector of 16-bit lanes must provide, whatever the engine.
///
/// `lanes` is the mathematical value of the vector; `wf` says the vector
/// holds exactly `spec_width` lanes.  Every operation's contract is stated
/// lane by lane through the functions of [`crate::lanes`], so any two
/// implementing types agree on every input: that is the portability
/// contract between engines.
///
/// Comparisons produce masks (all bits of a lane set or clear), and
/// `blendv` keeps the first operand where the mask lane is zero and takes
/// the second where it is nonzero.
pub trait SimdInt16: Sized {
    /// The lane values, lowest lane first.
    spec fn lanes(&self) -> Seq<i16>;

    /// Well-formed: the vector holds exactly `spec_width` lanes.
    spec fn wf(&self) -> bool;

    /// The fixed lane count of this vector type.
    spec fn spec_width() -> nat;

    /// A well-formed vector holds `spec_width` lanes, and there is at
    /// least one.
    proof fn lemma_wf(&self)
        requires
            self.wf(),
        ensures
            self.lanes().len() == Self::spec_width(),
            Self::spec_width() >= 1,
    ;

    /// The lane count, as a runtime value.
    fn width() -> (w: usize)
        ensures
            w == Self::spec_width(),
    ;

    /// The vector with every lane zero.
    fn zeroes() -> (r: Self)
        ensures
            r.wf(),
            r.lanes().len() == Self::spec_width(),
            forall|j: int| 0 <= j < r.lanes().len() ==> #[trigger] r.lanes()[j] == 0i16,
    ;

    /// The vector with every lane equal to `val`.
    fn set1(val: i16) -> (r: Self)
        ensures
            r.wf(),
            r.lanes().len() == Self::spec_width(),
            forall|j: int| 0 <= j < r.lanes().len() ==> #[trigger] r.lanes()[j] == val,
    ;

    /// The vector holding the `spec_width` values of `src` starting at
    /// `offset`.
    fn load_unaligned(src: &Vec<i16>, offset: usize) -> (r: Self)
        requires
            offset + Self::spec_width() <= src@.len(),
        ensures
            r.wf(),
            r.lanes() == src@.subrange(offset as int, offset + Self::spec_width()),
    ;

    /// Writes the lanes over the `spec_width` values of `dst` starting at
    /// `offset`; the rest of `dst` is untouched.
    fn store_unaligned(&self, dst: &mut Vec<i16>, offset: usize)
        requires
            self.wf(),
            offset + Self::spec_width() <= old(dst)@.len(),
        ensures
            final(dst)@.len() == old(dst)@.len(),
            forall|j: int|
                offset <= j < offset + Self::spec_width() ==> #[trigger] final(dst)@[j]
                    == self.lanes()[j - offset],
            forall|j: int|
                0 <= j < final(dst)@.len() && !(offset <= j < offset + Self::spec_width())
                    ==> #[trigger] final(dst)@[j] == old(dst)@[j],
    ;

    /// The aligned load: in this model it behaves exactly as
    /// [`Self::load_unaligned`]; a hardware back end additionally demands
    /// an address on the register boundary, which is the caller's
    /// obligation and is never checked.
    fn load_aligned(src: &Vec<i16>, offset: usize) -> (r: Self)
        requires
            offset + Self::spec_width() <= src@.len(),
        ensures
            r.wf(),
            r.lanes() == src@.subrange(offset as int, offset + Self::spec_width()),
    ;

    /// The aligned store; see [`Self::load_aligned`] for the alignment
    /// obligation.
    fn store_aligned(&self, dst: &mut Vec<i16>, offset: usize)
        requires
            self.wf(),
            offset + Self::spec_width() <= old(dst)@.len(),
        ensures
            final(dst)@.len() == old(dst)@.len(),
            forall|j: int|
                offset <= j < offset + Self::spec_width() ==> #[trigger] final(dst)@[j]
                    == self.lanes()[j - offset],
            forall|j: int|
                0 <= j < final(dst)@.len() && !(offset <= j < offset + Self::spec_width())
                    ==> #[trigger] final(dst)@[j] == old(dst)@[j],
    ;

    /// The lane at index `i`.
    fn get_lane(&self, i: usize) -> (r: i16)
        requires
            self.wf(),
            i < Self::spec_width(),
        ensures
            r == self.lanes()[i as int],
    ;

    /// Replaces the lane at index `i` by `val`.
    fn set_lane(&mut self, i: usize, val: i16)
        requires
            old(self).wf(),
            i < Self::spec_width(),
        ensures
            final(self).wf(),
            final(self).lanes() == old(self).lanes().update(i as int, val),
    ;

    /// Lane-wise addition wrapping modulo 2^16.
    fn add(&self, o: &Self) -> (r: Self)
        requires
            self.wf(),
            o.wf(),
        ensures
            r.wf(),
            r.lanes().len() == self.lanes().len(),
            forall|j: int|
                0 <= j < r.lanes().len() ==> #[trigger] r.lanes()[j] == lanes::add_i16(
                    self.lanes()[j],
                    o.lanes()[j],
                ),
    ;

    /// Lane-wise subtraction wrapping modulo 2^16.
    fn sub(&self, o: &Self) -> (r: Self)
        requires
            self.wf(),
            o.wf(),
        ensures
            r.wf(),
            r.lanes().len() == self.lanes().len(),
            forall|j: int|
                0 <= j < r.lanes().len() ==> #[trigger] r.lanes()[j] == lanes::sub_i16(
                    self.lanes()[j],
                    o.lanes()[j],
                ),
    ;

    /// Lane-wise multiplication wrapping modulo 2^16.
    fn mul(&self, o: &Self) -> (r: Self)
        requires
            self.wf(),
            o.wf(),
        ensures
            r.wf(),
            r.lanes().len() == self.lanes().len(),
            forall|j: int|
                0 <= j < r.lanes().len() ==> #[trigger] r.lanes()[j] == lanes::mul_i16(
                    self.lanes()[j],
                    o.lanes()[j],
                ),
    ;

    /// Lane-wise minimum.
    fn min(&self, o: &Self) -> (r: Self)
        requires
            self.wf(),
            o.wf(),
        ensures
            r.wf(),
            r.lanes().len() == self.lanes().len(),
            forall|j: int|
                0 <= j < r.lanes().len() ==> #[trigger] r.lanes()[j] == lanes::min_i16(
                    self.lanes()[j],
                    o.lanes()[j],
                ),
    ;

    /// Lane-wise maximum.
    fn max(&self, o: &Self) -> (r: Self)
        requires
            self.wf(),
            o.wf(),
        ensures
            r.wf(),
            r.lanes().len() == self.lanes().len(),
            forall|j: int|
                0 <= j < r.lanes().len() ==> #[trigger] r.lanes()[j] == lanes::max_i16(
                    self.lanes()[j],
                    o.lanes()[j],
                ),
    ;

    /// Lane-wise absolute value, wrapping: the most negative lane value is
    /// its own absolute value, never a trap.
    fn abs(&self) -> (r: Self)
        requires
            self.wf(),
        ensures
            r.wf(),
            r.lanes().len() == self.lanes().len(),
            forall|j: int|
                0 <= j < r.lanes().len() ==> #[trigger] r.lanes()[j] == lanes::abs_i16(
                    self.lanes()[j],
                ),
    ;

    /// Lane-wise equality mask.
    fn eq(&self, o: &Self) -> (r: Self)
        requires
            self.wf(),
            o.wf(),
        ensures
            r.wf(),
            r.lanes().len() == self.lanes().len(),
            forall|j: int|
                0 <= j < r.lanes().len() ==> #[trigger] r.lanes()[j] == lanes::mask_i16(
                    self.lanes()[j] == o.lanes()[j],
                ),
    ;

    /// Lane-wise inequality mask.
    fn neq(&self, o: &Self) -> (r: Self)
        requires
            self.wf(),
            o.wf(),
        ensures
            r.wf(),
            r.lanes().len() == self.lanes().len(),
            forall|j: int|
                0 <= j < r.lanes().len() ==> #[trigger] r.lanes()[j] == lanes::mask_i16(
                    self.lanes()[j] != o.lanes()[j],
                ),
    ;

    /// Lane-wise less-than mask.
    fn lt(&self, o: &Self) -> (r: Self)
        requires
            self.wf(),
            o.wf(),
        ensures
            r.wf(),
            r.lanes().len() == self.lanes().len(),
            forall|j: int|
                0 <= j < r.lanes().len() ==> #[trigger] r.lanes()[j] == lanes::mask_i16(
                    self.lanes()[j] < o.lanes()[j],
                ),
    ;

    /// Lane-wise less-or-equal mask.
    fn lte(&self, o: &Self) -> (r: Self)
        requires
            self.wf(),
            o.wf(),
        ensures
            r.wf(),
            r.lanes().len() == self.lanes().len(),
            forall|j: int|
                0 <= j < r.lanes().len() ==> #[trigger] r.lanes()[j] == lanes::mask_i16(
                    self.lanes()[j] <= o.lanes()[j],
                ),
    ;

    /// Lane-wise greater-than mask.
    fn gt(&self, o: &Self) -> (r: Self)
        requires
            self.wf(),
            o.wf(),
        ensures
            r.wf(),
            r.lanes().len() == self.lanes().len(),
            forall|j: int|
                0 <= j < r.lanes().len() ==> #[trigger] r.lanes()[j] == lanes::mask_i16(
                    self.lanes()[j] > o.lanes()[j],
                ),
    ;

    /// Lane-wise greater-or-equal mask.
    fn gte(&self, o: &Self) -> (r: Self)
        requires
            self.wf(),
            o.wf(),
        ensures
            r.wf(),
            r.lanes().len() == self.lanes().len(),
            forall|j: int|
                0 <= j < r.lanes().len() ==> #[trigger] r.lanes()[j] == lanes::mask_i16(
                    self.lanes()[j] >= o.lanes()[j],
                ),
    ;

    /// Lane-wise selection: where a mask lane is zero the lane of `self` is
    /// kept, where it is nonzero the lane of `o` is taken.
    fn blendv(&self, o: &Self, mask: &Self) -> (r: Self)
        requires
            self.wf(),
            o.wf(),
            mask.wf(),
        ensures
            r.wf(),
            r.lanes().len() == self.lanes().len(),
            forall|j: int|
                0 <= j < r.lanes().len() ==> #[trigger] r.lanes()[j] == lanes::blend_i16(
                    self.lanes()[j],
                    o.lanes()[j],
                    mask.lanes()[j],
                ),
    ;

    /// Every lane shifted left by the same count.
    fn shl(&self, rhs: i32) -> (r: Self)
        requires
            self.wf(),
            0 <= rhs < 16,
        ensures
            r.wf(),
            r.lanes().len() == self.lanes().len(),
            forall|j: int|
                0 <= j < r.lanes().len() ==> #[trigger] r.lanes()[j] == lanes::shl_i16(
                    self.lanes()[j],
                    rhs as u32,
                ),
    ;

    /// Every lane shifted right by the same count, logically: zeros are
    /// shifted in whatever the sign.
    fn shr(&self, rhs: i32) -> (r: Self)
        requires
            self.wf(),
            0 <= rhs < 16,
        ensures
            r.wf(),
            r.lanes().len() == self.lanes().len(),
            forall|j: int|
                0 <= j < r.lanes().len() ==> #[trigger] r.lanes()[j] == lanes::shr_i16(
                    self.lanes()[j],
                    rhs as u32,
                ),
    ;

    /// Lane-wise bitwise and.
    fn bit_and(&self, o: &Self) -> (r: Self)
        requires
            self.wf(),
            o.wf(),
        ensures
            r.wf(),
            r.lanes().len() == self.lanes().len(),
            forall|j: int|
                0 <= j < r.lanes().len() ==> #[trigger] r.lanes()[j] == (self.lanes()[j]
                    & o.lanes()[j]),
    ;

    /// Lane-wise bitwise or.
    fn bit_or(&self, o: &Self) -> (r: Self)
        requires
            self.wf(),
            o.wf(),
        ensures
            r.wf(),
            r.lanes().len() == self.lanes().len(),
            forall|j: int|
                0 <= j < r.lanes().len() ==> #[trigger] r.lanes()[j] == (self.lanes()[j]
                    | o.lanes()[j]),
    ;

    /// Lane-wise bitwise exclusive or.
    fn bit_xor(&self, o: &Self) -> (r: Self)
        requires
            self.wf(),
            o.wf(),
        ensures
            r.wf(),
            r.lanes().len() == self.lanes().len(),
            forall|j: int|
                0 <= j < r.lanes().len() ==> #[trigger] r.lanes()[j] == (self.lanes()[j]
                    ^ o.lanes()[j]),
    ;

    /// Lane-wise bitwise complement.
    fn bit_not(&self) -> (r: Self)
        requires
            self.wf(),
        ensures
            r.wf(),
            r.lanes().len() == self.lanes().len(),
            forall|j: int|
                0 <= j < r.lanes().len() ==> #[trigger] r.lanes()[j] == !self.lanes()[j],
    ;

    /// Lane-wise and-not: the lanes of `o` with the bits of `self` cleared.
    fn bit_andnot(&self, o: &Self) -> (r: Self)
        requires
            self.wf(),
            o.wf(),
        ensures
            r.wf(),
            r.lanes().len() == self.lanes().len(),
            forall|j: int|
                0 <= j < r.lanes().len() ==> #[trigger] r.lanes()[j] == (!self.lanes()[j]
                    & o.lanes()[j]),
    ;
}

/// What a vector of 32-bit lanes must provide, whatever the engine.
///
/// `lanes` is the mathematical value of the vector; `wf` says the vector
/// holds exactly `spec_width` lanes.  Every operation's contract is stated
/// lane by lane through the functions of [`crate::lanes`], so any two
/// implementing types agree on every input: that is the portability
/// contract between engines.
///
/// Comparisons produce masks (all bits of a lane set or clear), and
/// `blendv` keeps the first operand where the mask lane is zero and takes
/// the second where it is nonzero.
pub trait SimdInt32: Sized {
    /// The lane values, lowest lane first.
    spec fn lanes(&self) -> Seq<i32>;

    /// Well-formed: the vector holds exactly `spec_width` lanes.
    spec fn wf(&self) -> bool;

    /// The fixed lane count of this vector type.
    spec fn spec_width() -> nat;

    /// A well-formed vector holds `spec_width` lanes, and there is at
    /// least one.
    proof fn lemma_wf(&self)
        requires
            self.wf(),
        ensures
            self.lanes().len() == Self::spec_width(),
            Self::spec_width() >= 1,
    ;

    /// The lane count, as a runtime value.
    fn width() -> (w: usize)
        ensures
            w == Self::spec_width(),
    ;

    /// The vector with every lane zero.
    fn zeroes() -> (r: Self)
        ensures
            r.wf(),
            r.lanes().len() == Self::spec_width(),
            forall|j: int| 0 <= j < r.lanes().len() ==> #[trigger] r.lanes()[j] == 0i32,
    ;

    /// The vector with every lane equal to `val`.
    fn set1(val: i32) -> (r: Self)
        ensures
            r.wf(),
            r.lanes().len() == Self::spec_width(),
            forall|j: int| 0 <= j < r.lanes().len() ==> #[trigger] r.lanes()[j] == val,
    ;

    /// The vector holding the `spec_width` values of `src` starting at
    /// `offset`.
    fn load_unaligned(src: &Vec<i32>, offset: usize) -> (r: Self)
        requires
            offset + Self::spec_width() <= src@.len(),
        ensures
            r.wf(),
            r.lanes() == src@.subrange(offset as int, offset + Self::spec_width()),
    ;

    /// Writes the lanes over the `spec_width` values of `dst` starting at
    /// `offset`; the rest of `dst` is untouched.
    fn store_unaligned(&self, dst: &mut Vec<i32>, offset: usize)
        requires
            self.wf(),
            offset + Self::spec_width() <= old(dst)@.len(),
        ensures
            final(dst)@.len() == old(dst)@.len(),
            forall|j: int|
                offset <= j < offset + Self::spec_width() ==> #[trigger] final(dst)@[j]
                    == self.lanes()[j - offset],
            forall|j: int|
                0 <= j < final(dst)@.len() && !(offset <= j < offset + Self::spec_width())
                    ==> #[trigger] final(dst)@[j] == old(dst)@[j],
    ;

    /// The aligned load: in this model it behaves exactly as
    /// [`Self::load_unaligned`]; a hardware back end additionally demands
    /// an address on the register boundary, which is the caller's
    /// obligation and is never checked.
    fn load_aligned(src: &Vec<i32>, offset: usize) -> (r: Self)
        requires
            offset + Self::spec_width() <= src@.len(),
        ensures
            r.wf(),
            r.lanes() == src@.subrange(offset as int, offset + Self::spec_width()),
    ;

    /// The aligned store; see [`Self::load_aligned`] for the alignment
    /// obligation.
    fn store_aligned(&self, dst: &mut Vec<i32>, offset: usize)
        requires
            self.wf(),
            offset + Self::spec_width() <= old(dst)@.len(),
        ensures
            final(dst)@.len() == old(dst)@.len(),
            forall|j: int|
                offset <= j < offset + Self::spec_width() ==> #[trigger] final(dst)@[j]
                    == self.lanes()[j - offset],
            forall|j: int|
                0 <= j < final(dst)@.len() && !(offset <= j < offset + Self::spec_width())
                    ==> #[trigger] final(dst)@[j] == old(dst)@[j],
    ;

    /// The lane at index `i`.
    fn get_lane(&self, i: usize) -> (r: i32)
        requires
            self.wf(),
            i < Self::spec_width(),
        ensures
            r == self.lanes()[i as int],
    ;

    /// Replaces the lane at index `i` by `val`.
    fn set_lane(&mut self, i: usize, val: i32)
        requires
            old(self).wf(),
            i < Self::spec_width(),
        ensures
            final(self).wf(),
            final(self).lanes() == old(self).lanes().update(i as int, val),
    ;

    /// Lane-wise addition wrapping modulo 2^32.
    fn add(&self, o: &Self) -> (r: Self)
        requires
            self.wf(),
            o.wf(),
        ensures
            r.wf(),
            r.lanes().len() == self.lanes().len(),
            forall|j: int|
                0 <= j < r.lanes().len() ==> #[trigger] r.lanes()[j] == lanes::add_i32(
                    self.lanes()[j],
                    o.lanes()[j],
                ),
    ;

    /// Lane-wise subtraction wrapping modulo 2^32.
    fn sub(&self, o: &Self) -> (r: Self)
        requires
            self.wf(),
            o.wf(),
        ensures
            r.wf(),
            r.lanes().len() == self.lanes().len(),
            forall|j: int|
                0 <= j < r.lanes().len() ==> #[trigger] r.lanes()[j] == lanes::sub_i32(
                    self.lanes()[j],
                    o.lanes()[j],
                ),
    ;

    /// Lane-wise multiplication wrapping modulo 2^32.
    fn mul(&self, o: &Self) -> (r: Self)
        requires
            self.wf(),
            o.wf(),
        ensures
            r.wf(),
            r.lanes().len() == self.lanes().len(),
            forall|j: int|
                0 <= j < r.lanes().len() ==> #[trigger] r.lanes()[j] == lanes::mul_i32(
                    self.lanes()[j],
                    o.lanes()[j],
                ),
    ;

    /// Lane-wise minimum.
    fn min(&self, o: &Self) -> (r: Self)
        requires
            self.wf(),
            o.wf(),
        ensures
            r.wf(),
            r.lanes().len() == self.lanes().len(),
            forall|j: int|
                0 <= j < r.lanes().len() ==> #[trigger] r.lanes()[j] == lanes::min_i32(
                    self.lanes()[j],
                    o.lanes()[j],
                ),
    ;

    /// Lane-wise maximum.
    fn max(&self, o: &Self) -> (r: Self)
        requires
            self.wf(),
            o.wf(),
        ensures
            r.wf(),
            r.lanes().len() == self.lanes().len(),
            forall|j: int|
                0 <= j < r.lanes().len() ==> #[trigger] r.lanes()[j] == lanes::max_i32(
                    self.lanes()[j],
                    o.lanes()[j],
                ),
    ;

    /// Lane-wise absolute value, wrapping: the most negative lane value is
    /// its own absolute value, never a trap.
    fn abs(&self) -> (r: Self)
        requires
            self.wf(),
        ensures
            r.wf(),
            r.lanes().len() == self.lanes().len(),
            forall|j: int|
                0 <= j < r.lanes().len() ==> #[trigger] r.lanes()[j] == lanes::abs_i32(
                    self.lanes()[j],
                ),
    ;

    /// Lane-wise equality mask.
    fn eq(&self, o: &Self) -> (r: Self)
        requires
            self.wf(),
            o.wf(),
        ensures
            r.wf(),
            r.lanes().len() == self.lanes().len(),
            forall|j: int|
                0 <= j < r.lanes().len() ==> #[trigger] r.lanes()[j] == lanes::mask_i32(
                    self.lanes()[j] == o.lanes()[j],
                ),
    ;

    /// Lane-wise inequality mask.
    fn neq(&self, o: &Self) -> (r: Self)
        requires
            self.wf(),
            o.wf(),
        ensures
            r.wf(),
            r.lanes().len() == self.lanes().len(),
            forall|j: int|
                0 <= j < r.lanes().len() ==> #[trigger] r.lanes()[j] == lanes::mask_i32(
                    self.lanes()[j] != o.lanes()[j],
                ),
    ;

    /// Lane-wise less-than mask.
    fn lt(&self, o: &Self) -> (r: Self)
        requires
            self.wf(),
            o.wf(),
        ensures
            r.wf(),
            r.lanes().len() == self.lanes().len(),
            forall|j: int|
                0 <= j < r.lanes().len() ==> #[trigger] r.lanes()[j] == lanes::mask_i32(
                    self.lanes()[j] < o.lanes()[j],
                ),
    ;

    /// Lane-wise less-or-equal mask.
    fn lte(&self, o: &Self) -> (r: Self)
        requires
            self.wf(),
            o.wf(),
        ensures
            r.wf(),
            r.lanes().len() == self.lanes().len(),
            forall|j: int|
                0 <= j < r.lanes().len() ==> #[trigger] r.lanes()[j] == lanes::mask_i32(
                    self.lanes()[j] <= o.lanes()[j],
                ),
    ;

    /// Lane-wise greater-than mask.
    fn gt(&self, o: &Self) -> (r: Self)
        requires
            self.wf(),
            o.wf(),
        ensures
            r.wf(),
            r.lanes().len() == self.lanes().len(),
            forall|j: int|
                0 <= j < r.lanes().len() ==> #[trigger] r.lanes()[j] == lanes::mask_i32(
                    self.lanes()[j] > o.lanes()[j],
                ),
    ;

    /// Lane-wise greater-or-equal mask.
    fn gte(&self, o: &Self) -> (r: Self)
        requires
            self.wf(),
            o.wf(),
        ensures
            r.wf(),
            r.lanes().len() == self.lanes().len(),
            forall|j: int|
                0 <= j < r.lanes().len() ==> #[trigger] r.lanes()[j] == lanes::mask_i32(
                    self.lanes()[j] >= o.lanes()[j],
                ),
    ;

    /// Lane-wise selection: where a mask lane is zero the lane of `self` is
    /// kept, where it is nonzero the lane of `o` is taken.
    fn blendv(&self, o: &Self, mask: &Self) -> (r: Self)
        requires
            self.wf(),
            o.wf(),
            mask.wf(),
        ensures
            r.wf(),
            r.lanes().len() == self.lanes().len(),
            forall|j: int|
                0 <= j < r.lanes().len() ==> #[trigger] r.lanes()[j] == lanes::blend_i32(
                    self.lanes()[j],
                    o.lanes()[j],
                    mask.lanes()[j],
                ),
    ;

    /// Every lane shifted left by the same count.
    fn shl(&self, rhs: i32) -> (r: Self)
        requires
            self.wf(),
            0 <= rhs < 32,
        ensures
            r.wf(),
            r.lanes().len() == self.lanes().len(),
            forall|j: int|
                0 <= j < r.lanes().len() ==> #[trigger] r.lanes()[j] == lanes::shl_i32(
                    self.lanes()[j],
                    rhs as u32,
                ),
    ;

    /// Every lane shifted right by the same count, logically: zeros are
    /// shifted in whatever the sign.
    fn shr(&self, rhs: i32) -> (r: Self)
        requires
            self.wf(),
            0 <= rhs < 32,
        ensures
            r.wf(),
            r.lanes().len() == self.lanes().len(),
            forall|j: int|
                0 <= j < r.lanes().len() ==> #[trigger] r.lanes()[j] == lanes::shr_i32(
                    self.lanes()[j],
                    rhs as u32,
                ),
    ;

    /// Lane-wise bitwise and.
    fn bit_and(&self, o: &Self) -> (r: Self)
        requires
            self.wf(),
            o.wf(),
        ensures
            r.wf(),
            r.lanes().len() == self.lanes().len(),
            forall|j: int|
                0 <= j < r.lanes().len() ==> #[trigger] r.lanes()[j] == (self.lanes()[j]
                    & o.lanes()[j]),
    ;

    /// Lane-wise bitwise or.
    fn bit_or(&self, o: &Self) -> (r: Self)
        requires
            self.wf(),
            o.wf(),
        ensures
            r.wf(),
            r.lanes().len() == self.lanes().len(),
            forall|j: int|
                0 <= j < r.lanes().len() ==> #[trigger] r.lanes()[j] == (self.lanes()[j]
                    | o.lanes()[j]),
    ;

    /// Lane-wise bitwise exclusive or.
    fn bit_xor(&self, o: &Self) -> (r: Self)
        requires
            self.wf(),
            o.wf(),
        ensures
            r.wf(),
            r.lanes().len() == self.lanes().len(),
            forall|j: int|
                0 <= j < r.lanes().len() ==> #[trigger] r.lanes()[j] == (self.lanes()[j]
                    ^ o.lanes()[j]),
    ;

    /// Lane-wise bitwise complement.
    fn bit_not(&self) -> (r: Self)
        requires
            self.wf(),
        ensures
            r.wf(),
            r.lanes().len() == self.lanes().len(),
            forall|j: int|
                0 <= j < r.lanes().len() ==> #[trigger] r.lanes()[j] == !self.lanes()[j],
    ;

    /// Lane-wise and-not: the lanes of `o` with the bits of `self` cleared.
    fn bit_andnot(&self, o: &Self) -> (r: Self)
        requires
            self.wf(),
            o.wf(),
        ensures
            r.wf(),
            r.lanes().len() == self.lanes().len(),
            forall|j: int|
                0 <= j < r.lanes().len() ==> #[trigger] r.lanes()[j] == (!self.lanes()[j]
                    & o.lanes()[j]),
    ;
}

/// What a vector of 64-bit lanes must provide, whatever the engine.
///
/// `lanes` is the mathematical value of the vector; `wf` says the vector
/// holds exactly `spec_width` lanes.  Every operation's contract is stated
/// lane by lane through the functions of [`crate::lanes`], so any two
/// implementing types agree on every input: that is the portability
/// contract between engines.
///
/// Comparisons produce masks (all bits of a lane set or clear), and
/// `blendv` keeps the first operand where the mask lane is zero and takes
/// the second where it is nonzero.
pub trait SimdInt64: Sized {
    /// The lane values, lowest lane first.
    spec fn lanes(&self) -> Seq<i64>;

    /// Well-formed: the vector holds exactly `spec_width` lanes.
    spec fn wf(&self) -> bool;

    /// The fixed lane count of this vector type.
    spec fn spec_width() -> nat;

    /// A well-formed vector holds `spec_width` lanes, and there is at
    /// least one.
    proof fn lemma_wf(&self)
        requires
            self.wf(),
        ensures
            self.lanes().len() == Self::spec_width(),
            Self::spec_width() >= 1,
    ;

    /// The lane count, as a runtime value.
    fn width() -> (w: usize)
        ensures
            w == Self::spec_width(),
    ;

    /// The vector with every lane zero.
    fn zeroes() -> (r: Self)
        ensures
            r.wf(),
            r.lanes().len() == Self::spec_width(),
            forall|j: int| 0 <= j < r.lanes().len() ==> #[trigger] r.lanes()[j] == 0i64,
    ;

    /// The vector with every lane equal to `val`.
    fn set1(val: i64) -> (r: Self)
        ensures
            r.wf(),
            r.lanes().len() == Self::spec_width(),
            forall|j: int| 0 <= j < r.lanes().len() ==> #[trigger] r.lanes()[j] == val,
    ;

    /// The vector holding the `spec_width` values of `src` starting at
    /// `offset`.
    fn load_unaligned(src: &Vec<i64>, offset: usize) -> (r: Self)
        requires
            offset + Self::spec_width() <= src@.len(),
        ensures
            r.wf(),
            r.lanes() == src@.subrange(offset as int, offset + Self::spec_width()),
    ;

    /// Writes the lanes over the `spec_width` values of `dst` starting at
    /// `offset`; the rest of `dst` is untouched.
    fn store_unaligned(&self, dst: &mut Vec<i64>, offset: usize)
        requires
            self.wf(),
            offset + Self::spec_width() <= old(dst)@.len(),
        ensures
            final(dst)@.len() == old(dst)@.len(),
            forall|j: int|
                offset <= j < offset + Self::spec_width() ==> #[trigger] final(dst)@[j]
                    == self.lanes()[j - offset],
            forall|j: int|
                0 <= j < final(dst)@.len() && !(offset <= j < offset + Self::spec_width())
                    ==> #[trigger] final(dst)@[j] == old(dst)@[j],
    ;

    /// The aligned load: in this model it behaves exactly as
    /// [`Self::load_unaligned`]; a hardware back end additionally demands
    /// an address on the register boundary, which is the caller's
    /// obligation and is never checked.
    fn load_aligned(src: &Vec<i64>, offset: usize) -> (r: Self)
        requires
            offset + Self::spec_width() <= src@.len(),
        ensures
            r.wf(),
            r.lanes() == src@.subrange(offset as int, offset + Self::spec_width()),
    ;

    /// The aligned store; see [`Self::load_aligned`] for the alignment
    /// obligation.
    fn store_aligned(&self, dst: &mut Vec<i64>, offset: usize)
        requires
            self.wf(),
            offset + Self::spec_width() <= old(dst)@.len(),
        ensures
            final(dst)@.len() == old(dst)@.len(),
            forall|j: int|
                offset <= j < offset + Self::spec_width() ==> #[trigger] final(dst)@[j]
                    == self.lanes()[j - offset],
            forall|j: int|
                0 <= j < final(dst)@.len() && !(offset <= j < offset + Self::spec_width())
                    ==> #[trigger] final(dst)@[j] == old(dst)@[j],
    ;

    /// The lane at index `i`.
    fn get_lane(&self, i: usize) -> (r: i64)
        requires
            self.wf(),
            i < Self::spec_width(),
        ensures
            r == self.lanes()[i as int],
    ;

    /// Replaces the lane at index `i` by `val`.
    fn set_lane(&mut self, i: usize, val: i64)
        requires
            old(self).wf(),
            i < Self::spec_width(),
        ensures
            final(self).wf(),
            final(self).lanes() == old(self).lanes().update(i as int, val),
    ;

    /// Lane-wise addition wrapping modulo 2^64.
    fn add(&self, o: &Self) -> (r: Self)
        requires
            self.wf(),
            o.wf(),
        ensures
            r.wf(),
            r.lanes().len() == self.lanes().len(),
            forall|j: int|
                0 <= j < r.lanes().len() ==> #[trigger] r.lanes()[j] == lanes::add_i64(
                    self.lanes()[j],
                    o.lanes()[j],
                ),
    ;

    /// Lane-wise subtraction wrapping modulo 2^64.
    fn sub(&self, o: &Self) -> (r: Self)
        requires
            self.wf(),
            o.wf(),
        ensures
            r.wf(),
            r.lanes().len() == self.lanes().len(),
            forall|j: int|
                0 <= j < r.lanes().len() ==> #[trigger] r.lanes()[j] == lanes::sub_i64(
                    self.lanes()[j],
                    o.lanes()[j],
                ),
    ;

    /// Lane-wise multiplication wrapping modulo 2^64.
    fn mul(&self, o: &Self) -> (r: Self)
        requires
            self.wf(),
            o.wf(),
        ensures
            r.wf(),
            r.lanes().len() == self.lanes().len(),
            forall|j: int|
                0 <= j < r.lanes().len() ==> #[trigger] r.lanes()[j] == lanes::mul_i64(
                    self.lanes()[j],
                    o.lanes()[j],
                ),
    ;

    /// Lane-wise minimum.
    fn min(&self, o: &Self) -> (r: Self)
        requires
            self.wf(),
            o.wf(),
        ensures
            r.wf(),
            r.lanes().len() == self.lanes().len(),
            forall|j: int|
                0 <= j < r.lanes().len() ==> #[trigger] r.lanes()[j] == lanes::min_i64(
                    self.lanes()[j],
                    o.lanes()[j],
                ),
    ;

    /// Lane-wise maximum.
    fn max(&self, o: &Self) -> (r: Self)
        requires
            self.wf(),
            o.wf(),
        ensures
            r.wf(),
            r.lanes().len() == self.lanes().len(),
            forall|j: int|
                0 <= j < r.lanes().len() ==> #[trigger] r.lanes()[j] == lanes::max_i64(
                    self.lanes()[j],
                    o.lanes()[j],
                ),
    ;

    /// Lane-wise absolute value, wrapping: the most negative lane value is
    /// its own absolute value, never a trap.
    fn abs(&self) -> (r: Self)
        requires
            self.wf(),
        ensures
            r.wf(),
            r.lanes().len() == self.lanes().len(),
            forall|j: int|
                0 <= j < r.lanes().len() ==> #[trigger] r.lanes()[j] == lanes::abs_i64(
                    self.lanes()[j],
                ),
    ;

    /// Lane-wise equality mask.
    fn eq(&self, o: &Self) -> (r: Self)
        requires
            self.wf(),
            o.wf(),
        ensures
            r.wf(),
            r.lanes().len() == self.lanes().len(),
            forall|j: int|
                0 <= j < r.lanes().len() ==> #[trigger] r.lanes()[j] == lanes::mask_i64(
                    self.lanes()[j] == o.lanes()[j],
                ),
    ;

    /// Lane-wise inequality mask.
    fn neq(&self, o: &Self) -> (r: Self)
        requires
            self.wf(),
            o.wf(),
        ensures
            r.wf(),
            r.lanes().len() == self.lanes().len(),
            forall|j: int|
                0 <= j < r.lanes().len() ==> #[trigger] r.lanes()[j] == lanes::mask_i64(
                    self.lanes()[j] != o.lanes()[j],
                ),
    ;

    /// Lane-wise less-than mask.
    fn lt(&self, o: &Self) -> (r: Self)
        requires
            self.wf(),
            o.wf(),
        ensures
            r.wf(),
            r.lanes().len() == self.lanes().len(),
            forall|j: int|
                0 <= j < r.lanes().len() ==> #[trigger] r.lanes()[j] == lanes::mask_i64(
                    self.lanes()[j] < o.lanes()[j],
                ),
    ;

    /// Lane-wise less-or-equal mask.
    fn lte(&self, o: &Self) -> (r: Self)
        requires
            self.wf(),
            o.wf(),
        ensures
            r.wf(),
            r.lanes().len() == self.lanes().len(),
            forall|j: int|
                0 <= j < r.lanes().len() ==> #[trigger] r.lanes()[j] == lanes::mask_i64(
                    self.lanes()[j] <= o.lanes()[j],
                ),
    ;

    /// Lane-wise greater-than mask.
    fn gt(&self, o: &Self) -> (r: Self)
        requires
            self.wf(),
            o.wf(),
        ensures
            r.wf(),
            r.lanes().len() == self.lanes().len(),
            forall|j: int|
                0 <= j < r.lanes().len() ==> #[trigger] r.lanes()[j] == lanes::mask_i64(
                    self.lanes()[j] > o.lanes()[j],
                ),
    ;

    /// Lane-wise greater-or-equal mask.
    fn gte(&self, o: &Self) -> (r: Self)
        requires
            self.wf(),
            o.wf(),
        ensures
            r.wf(),
            r.lanes().len() == self.lanes().len(),
            forall|j: int|
                0 <= j < r.lanes().len() ==> #[trigger] r.lanes()[j] == lanes::mask_i64(
                    self.lanes()[j] >= o.lanes()[j],
                ),
    ;

    /// Lane-wise selection: where a mask lane is zero the lane of `self` is
    /// kept, where it is nonzero the lane of `o` is taken.
    fn blendv(&self, o: &Self, mask: &Self) -> (r: Self)
        requires
            self.wf(),
            o.wf(),
            mask.wf(),
        ensures
            r.wf(),
            r.lanes().len() == self.lanes().len(),
            forall|j: int|
                0 <= j < r.lanes().len() ==> #[trigger] r.lanes()[j] == lanes::blend_i64(
                    self.lanes()[j],
                    o.lanes()[j],
                    mask.lanes()[j],
                ),
    ;

    /// Every lane shifted left by the same count.
    fn shl(&self, rhs: i32) -> (r: Self)
        requires
            self.wf(),
            0 <= rhs < 64,
        ensures
            r.wf(),
            r.lanes().len() == self.lanes().len(),
            forall|j: int|
                0 <= j < r.lanes().len() ==> #[trigger] r.lanes()[j] == lanes::shl_i64(
                    self.lanes()[j],
                    rhs as u32,
                ),
    ;

    /// Every lane shifted right by the same count, logically: zeros are
    /// shifted in whatever the sign.
    fn shr(&self, rhs: i32) -> (r: Self)
        requires
            self.wf(),
            0 <= rhs < 64,
        ensures
            r.wf(),
            r.lanes().len() == self.lanes().len(),
            forall|j: int|
                0 <= j < r.lanes().len() ==> #[trigger] r.lanes()[j] == lanes::shr_i64(
                    self.lanes()[j],
                    rhs as u32,
                ),
    ;

    /// Lane-wise bitwise and.
    fn bit_and(&self, o: &Self) -> (r: Self)
        requires
            self.wf(),
            o.wf(),
        ensures
            r.wf(),
            r.lanes().len() == self.lanes().len(),
            forall|j: int|
                0 <= j < r.lanes().len() ==> #[trigger] r.lanes()[j] == (self.lanes()[j]
                    & o.lanes()[j]),
    ;

    /// Lane-wise bitwise or.
    fn bit_or(&self, o: &Self) -> (r: Self)
        requires
            self.wf(),
            o.wf(),
        ensures
            r.wf(),
            r.lanes().len() == self.lanes().len(),
            forall|j: int|
                0 <= j < r.lanes().len() ==> #[trigger] r.lanes()[j] == (self.lanes()[j]
                    | o.lanes()[j]),
    ;

    /// Lane-wise bitwise exclusive or.
    fn bit_xor(&self, o: &Self) -> (r: Self)
        requires
            self.wf(),
            o.wf(),
        ensures
            r.wf(),
            r.lanes().len() == self.lanes().len(),
            forall|j: int|
                0 <= j < r.lanes().len() ==> #[trigger] r.lanes()[j] == (self.lanes()[j]
                    ^ o.lanes()[j]),
    ;

    /// Lane-wise bitwise complement.
    fn bit_not(&self) -> (r: Self)
        requires
            self.wf(),
        ensures
            r.wf(),
            r.lanes().len() == self.lanes().len(),
            forall|j: int|
                0 <= j < r.lanes().len() ==> #[trigger] r.lanes()[j] == !self.lanes()[j],
    ;

    /// Lane-wise and-not: the lanes of `o` with the bits of `self` cleared.
    fn bit_andnot(&self, o: &Self) -> (r: Self)
        requires
            self.wf(),
            o.wf(),
        ensures
            r.wf(),
            r.lanes().len() == self.lanes().len(),
            forall|j: int|
                0 <= j < r.lanes().len() ==> #[trigger] r.lanes()[j] == (!self.lanes()[j]
                    & o.lanes()[j]),
    ;

    /// The horizontal reduction: all lanes summed into one scalar with
    /// wrapping addition; on a width-1 vector this is the identity.
    fn horizontal_add(&self) -> (r: i64)
        requires
            self.wf(),
        ensures
            r == lanes::hsum_i64(self.lanes()),
    ;
}

} // verus!
