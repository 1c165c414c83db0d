//! The scalar operation table on concrete values: wrapping arithmetic,
//! comparison masks, blending, shifts, extension and reinterpretation.

use simdeez::ops::{binary, Ops};
use simdeez::Scalar;

#[test]
fn add_wraps_at_the_top() {
    assert_eq!(Ops::<Scalar, i8>::add(127, 1), -128);
    assert_eq!(Ops::<Scalar, i16>::add(i16::MAX, 1), i16::MIN);
    assert_eq!(Ops::<Scalar, i32>::add(i32::MAX, 1), i32::MIN);
    assert_eq!(Ops::<Scalar, i64>::add(i64::MAX, 1), i64::MIN);
    assert_eq!(Ops::<Scalar, i32>::add(3, 4), 7);
}

#[test]
fn sub_wraps_at_the_bottom() {
    assert_eq!(Ops::<Scalar, i8>::sub(-128, 1), 127);
    assert_eq!(Ops::<Scalar, i16>::sub(i16::MIN, 1), i16::MAX);
    assert_eq!(Ops::<Scalar, i32>::sub(i32::MIN, 1), i32::MAX);
    assert_eq!(Ops::<Scalar, i64>::sub(i64::MIN, 1), i64::MAX);
    assert_eq!(Ops::<Scalar, i32>::sub(4, 7), -3);
}

#[test]
fn mul_wraps_modulo_the_width() {
    assert_eq!(Ops::<Scalar, i8>::mul(16, 16), 0);
    assert_eq!(Ops::<Scalar, i8>::mul(-128, -1), -128);
    assert_eq!(Ops::<Scalar, i16>::mul(256, 256), 0);
    assert_eq!(Ops::<Scalar, i32>::mul(65536, 65536), 0);
    assert_eq!(Ops::<Scalar, i64>::mul(6, 7), 42);
}

#[test]
fn min_max_abs() {
    assert_eq!(Ops::<Scalar, i32>::min(-3, 5), -3);
    assert_eq!(Ops::<Scalar, i32>::max(-3, 5), 5);
    assert_eq!(Ops::<Scalar, i32>::min(i32::MIN, i32::MAX), i32::MIN);
    assert_eq!(Ops::<Scalar, i8>::abs(-7), 7);
    assert_eq!(Ops::<Scalar, i64>::abs(i64::MIN + 1), i64::MAX);
    assert_eq!(Ops::<Scalar, i16>::abs(0), 0);
    // The most negative value is its own absolute value: wrapping, no trap.
    assert_eq!(Ops::<Scalar, i8>::abs(i8::MIN), i8::MIN);
    assert_eq!(Ops::<Scalar, i16>::abs(i16::MIN), i16::MIN);
    assert_eq!(Ops::<Scalar, i32>::abs(i32::MIN), i32::MIN);
    assert_eq!(Ops::<Scalar, i64>::abs(i64::MIN), i64::MIN);
}

#[test]
fn comparison_masks_are_all_ones_or_all_zeros() {
    assert_eq!(Ops::<Scalar, i32>::eq(5, 5), u32::MAX as i32);
    assert_eq!(Ops::<Scalar, i32>::eq(5, 6), 0);
    assert_eq!(Ops::<Scalar, i32>::neq(5, 6), -1);
    assert_eq!(Ops::<Scalar, i32>::neq(5, 5), 0);
    assert_eq!(Ops::<Scalar, i8>::lt(-1, 0), -1);
    assert_eq!(Ops::<Scalar, i8>::lt(0, -1), 0);
    assert_eq!(Ops::<Scalar, i16>::lte(3, 3), -1);
    assert_eq!(Ops::<Scalar, i16>::gt(4, 3), -1);
    assert_eq!(Ops::<Scalar, i64>::gte(i64::MIN, i64::MIN), -1);
    assert_eq!(Ops::<Scalar, i64>::gte(i64::MIN, 0), 0);
}

#[test]
fn mask_complements_and_inclusive_masks() {
    // neq is the bitwise complement of eq; lte is lt | eq.
    for (a, b) in [(1i32, 1i32), (1, 2), (2, 1), (i32::MIN, i32::MAX)] {
        let eq = Ops::<Scalar, i32>::eq(a, b);
        let neq = Ops::<Scalar, i32>::neq(a, b);
        assert_eq!(neq, !eq);
        let lt = Ops::<Scalar, i32>::lt(a, b);
        let lte = Ops::<Scalar, i32>::lte(a, b);
        assert_eq!(lt | eq, lte);
        let gt = Ops::<Scalar, i32>::gt(a, b);
        let gte = Ops::<Scalar, i32>::gte(a, b);
        assert_eq!(gt | eq, gte);
    }
}

#[test]
fn blendv_keeps_a_on_zero_and_takes_b_on_nonzero() {
    assert_eq!(Ops::<Scalar, i32>::blendv(10, 20, 0), 10);
    assert_eq!(Ops::<Scalar, i32>::blendv(10, 20, -1), 20);
    // A partial mask lane (neither all-zero nor all-ones): the scalar
    // convention is that any nonzero lane takes b.
    assert_eq!(Ops::<Scalar, i32>::blendv(10, 20, 1), 20);
    assert_eq!(Ops::<Scalar, i8>::blendv(1, 2, 0x40), 2);
    assert_eq!(Ops::<Scalar, i16>::blendv(1, 2, 0), 1);
    assert_eq!(Ops::<Scalar, i16>::blendv(1, 2, 0x0100), 2);
    assert_eq!(Ops::<Scalar, i64>::blendv(1, 2, i64::MIN), 2);
}

#[test]
fn shifts_are_logical() {
    assert_eq!(Ops::<Scalar, i32>::shl(1, 4), 16);
    assert_eq!(Ops::<Scalar, i32>::shl(i32::MAX, 1), -2);
    // Right shift reinterprets as unsigned first: zeros come in on top.
    assert_eq!(Ops::<Scalar, i8>::shr(-1, 1), 127);
    assert_eq!(Ops::<Scalar, i16>::shr(-2, 1), 32767);
    assert_eq!(Ops::<Scalar, i32>::shr(-4, 2), 0x3FFF_FFFF);
    assert_eq!(Ops::<Scalar, i64>::shr(-8, 3), 0x1FFF_FFFF_FFFF_FFFF);
    assert_eq!(Ops::<Scalar, i8>::shl(-1, 7), -128);
}

#[test]
fn compile_time_count_shifts_match_the_runtime_ones() {
    assert_eq!(Ops::<Scalar, i32>::shl_const::<4>(1), Ops::<Scalar, i32>::shl(1, 4));
    assert_eq!(Ops::<Scalar, i32>::shl_const::<4>(1), 16);
    assert_eq!(Ops::<Scalar, i8>::shr_const::<1>(-1), 127);
    assert_eq!(Ops::<Scalar, i16>::shl_const::<15>(1), i16::MIN);
    assert_eq!(Ops::<Scalar, i64>::shr_const::<63>(-1), 1);
}

#[test]
fn extension_widens_and_zeros_the_upper_half() {
    // Extending the 16-bit value 300 to 32 bits gives (300, 0).
    assert_eq!(Ops::<Scalar, i16>::extend_i32(300), (300, 0));
    assert_eq!(Ops::<Scalar, i16>::extend_i32(-1), (-1, 0));
    assert_eq!(Ops::<Scalar, i16>::unsigned_extend_i32(-1), (0xFFFF, 0));
    assert_eq!(Ops::<Scalar, i8>::extend_i16(-5), (-5, 0));
    assert_eq!(Ops::<Scalar, i8>::unsigned_extend_i16(-5), (0xFB, 0));
    assert_eq!(Ops::<Scalar, i32>::extend_i64(-7), (-7, 0));
    assert_eq!(Ops::<Scalar, i32>::unsigned_extend_i64(-7), (0xFFFF_FFF9, 0));
}

#[test]
fn binary_bit_table() {
    assert_eq!(Ops::<Scalar, binary>::bit_and(0b1100, 0b1010), 0b1000);
    assert_eq!(Ops::<Scalar, binary>::bit_or(0b1100, 0b1010), 0b1110);
    assert_eq!(Ops::<Scalar, binary>::bit_xor(0b1100, 0b1010), 0b0110);
    assert_eq!(Ops::<Scalar, binary>::bit_not(0), u64::MAX);
    assert_eq!(Ops::<Scalar, binary>::bit_andnot(0b1100, 0b1010), 0b0010);
}

#[test]
fn reinterpretation_round_trips() {
    // Into the carrier and back, the lane is reproduced exactly.
    for v in [0i32, 1, -1, i32::MIN, i32::MAX] {
        let c = Ops::<Scalar, i32>::bitcast_binary(v);
        assert_eq!(Ops::<Scalar, binary>::bitcast_i32(c), v);
    }
    for v in [0i8, 1, -1, i8::MIN, i8::MAX] {
        let c = Ops::<Scalar, i8>::bitcast_binary(v);
        assert_eq!(Ops::<Scalar, binary>::bitcast_i8(c), v);
    }
    for v in [0i16, -32768, 32767] {
        let c = Ops::<Scalar, i16>::bitcast_binary(v);
        assert_eq!(Ops::<Scalar, binary>::bitcast_i16(c), v);
    }
    for v in [0i64, i64::MIN, i64::MAX] {
        let c = Ops::<Scalar, i64>::bitcast_binary(v);
        assert_eq!(Ops::<Scalar, binary>::bitcast_i64(c), v);
    }
}

#[test]
fn bitwise_through_the_binary_carrier_matches_direct_bitwise() {
    for (a, b) in [(0x0Fi8, 0x33i8), (-1, 0), (-128, 127)] {
        let ca = Ops::<Scalar, i8>::bitcast_binary(a);
        let cb = Ops::<Scalar, i8>::bitcast_binary(b);
        let and = Ops::<Scalar, binary>::bit_and(ca, cb);
        assert_eq!(Ops::<Scalar, binary>::bitcast_i8(and), a & b);
        let or = Ops::<Scalar, binary>::bit_or(ca, cb);
        assert_eq!(Ops::<Scalar, binary>::bitcast_i8(or), a | b);
        let not = Ops::<Scalar, binary>::bit_not(ca);
        assert_eq!(Ops::<Scalar, binary>::bitcast_i8(not), !a);
        let andnot = Ops::<Scalar, binary>::bit_andnot(ca, cb);
        assert_eq!(Ops::<Scalar, binary>::bitcast_i8(andnot), !a & b);
    }
}

#[test]
fn lane_predicates() {
    assert_eq!(Ops::<Scalar, i8>::get_mask(-1), 1);
    assert_eq!(Ops::<Scalar, i8>::get_mask(0), 0);
    assert!(Ops::<Scalar, i8>::is_truthy(3));
    assert!(!Ops::<Scalar, i8>::is_truthy(0));
    assert_eq!(Ops::<Scalar, i64>::horizontal_add(42), 42);
    assert_eq!(Ops::<Scalar, i32>::zeroes(), 0);
    assert_eq!(Ops::<Scalar, i32>::set1(17), 17);
}
