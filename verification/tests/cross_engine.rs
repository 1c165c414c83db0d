//! Differential checks between engines: for representative inputs the
//! scalar engine's per-lane result equals every wide engine's corresponding
//! lane result, operation by operation.

use simdeez::base::{SimdInt32, SimdInt64, SimdInt8};
use simdeez::engines::avx2::{I32x8, I64x4, I8x32};
use simdeez::engines::scalar::{I32x1, I64x1, I8x1};
use simdeez::laws;
use simdeez::sse41::I32x4_41;

const EDGE_I32: [i32; 7] = [i32::MIN, -1, 0, 1, 7, 100, i32::MAX];

fn scalar_pair(a: i32, b: i32) -> (I32x1, I32x1) {
    (I32x1 { value: a }, I32x1 { value: b })
}

#[test]
fn every_operation_agrees_between_scalar_and_wide_i32() {
    for &a in EDGE_I32.iter() {
        for &b in EDGE_I32.iter() {
            let (sa, sb) = scalar_pair(a, b);
            let wa = I32x8::set1(a);
            let wb = I32x8::set1(b);
            let cases: Vec<(i32, I32x8)> = vec![
                (sa.add(&sb).value, wa.add(&wb)),
                (sa.sub(&sb).value, wa.sub(&wb)),
                (sa.mul(&sb).value, wa.mul(&wb)),
                (sa.min(&sb).value, wa.min(&wb)),
                (sa.max(&sb).value, wa.max(&wb)),
                (sa.eq(&sb).value, wa.eq(&wb)),
                (sa.neq(&sb).value, wa.neq(&wb)),
                (sa.lt(&sb).value, wa.lt(&wb)),
                (sa.lte(&sb).value, wa.lte(&wb)),
                (sa.gt(&sb).value, wa.gt(&wb)),
                (sa.gte(&sb).value, wa.gte(&wb)),
                (sa.bit_and(&sb).value, wa.bit_and(&wb)),
                (sa.bit_or(&sb).value, wa.bit_or(&wb)),
                (sa.bit_xor(&sb).value, wa.bit_xor(&wb)),
                (sa.bit_not().value, wa.bit_not()),
                (sa.bit_andnot(&sb).value, wa.bit_andnot(&wb)),
            ];
            for (scalar_result, wide_result) in cases {
                for lane in 0..8 {
                    assert_eq!(scalar_result, wide_result.get_lane(lane));
                }
            }
        }
    }
}

#[test]
fn shifts_and_blend_agree_between_scalar_and_wide_i32() {
    for &a in EDGE_I32.iter() {
        for rhs in [0, 1, 15, 31] {
            let s = I32x1 { value: a };
            let w = I32x8::set1(a);
            assert_eq!(s.shl(rhs).value, w.shl(rhs).get_lane(3));
            assert_eq!(s.shr(rhs).value, w.shr(rhs).get_lane(3));
        }
        for mask in [0, -1, 1] {
            let s = I32x1 { value: 10 }.blendv(&I32x1 { value: 20 }, &I32x1 { value: mask });
            let w = I32x8::set1(10).blendv(&I32x8::set1(20), &I32x8::set1(mask));
            assert_eq!(s.value, w.get_lane(0));
        }
    }
}

#[test]
fn abs_agrees_on_every_edge_value() {
    for a in [-1i32, 0, 1, i32::MIN, i32::MIN + 1, i32::MAX] {
        let s = I32x1 { value: a };
        let w = I32x4_41::set1(a);
        assert_eq!(s.abs().value, w.abs().get_lane(2));
    }
}

#[test]
fn i8_and_i64_engines_agree_on_edge_values() {
    for &a in [i8::MIN, -1, 0, 1, i8::MAX].iter() {
        for &b in [i8::MIN, -1, 0, 1, i8::MAX].iter() {
            let s = (I8x1 { value: a }, I8x1 { value: b });
            let w = (I8x32::set1(a), I8x32::set1(b));
            assert_eq!(s.0.add(&s.1).value, w.0.add(&w.1).get_lane(31));
            assert_eq!(s.0.mul(&s.1).value, w.0.mul(&w.1).get_lane(0));
            assert_eq!(s.0.lt(&s.1).value, w.0.lt(&w.1).get_lane(16));
        }
    }
    for &a in [i64::MIN, -1, 0, 1, i64::MAX].iter() {
        for &b in [i64::MIN, -1, 0, 1, i64::MAX].iter() {
            let s = (I64x1 { value: a }, I64x1 { value: b });
            let w = (I64x4::set1(a), I64x4::set1(b));
            assert_eq!(s.0.add(&s.1).value, w.0.add(&w.1).get_lane(3));
            assert_eq!(s.0.sub(&s.1).value, w.0.sub(&w.1).get_lane(2));
            assert_eq!(s.0.gte(&s.1).value, w.0.gte(&w.1).get_lane(1));
        }
    }
}

#[test]
fn the_engine_generic_theorems_run_on_every_width() {
    // The verified round trip, instantiated per engine.
    let src: Vec<i32> = vec![9, 8, 7, 6, 5, 4, 3, 2, 1, 0];
    assert_eq!(laws::round_trip_i32::<I32x8>(&src, 1), src[1..9].to_vec());
    assert_eq!(laws::round_trip_i32::<I32x4_41>(&src, 0), src[0..4].to_vec());
    assert_eq!(laws::round_trip_i32::<I32x1>(&src, 9), vec![0]);
    let src64: Vec<i64> = vec![5, -6, 7, -8];
    assert_eq!(laws::round_trip_i64::<I64x4>(&src64, 0), src64);

    // The verified scalar agreement, instantiated per engine.
    let a = I32x8::load_unaligned(&vec![1, 2, 3, 4, 5, 6, 7, i32::MAX], 0);
    let b = I32x8::load_unaligned(&vec![8, 7, 6, 5, 4, 3, 2, 1], 0);
    let (wide, scalar) = laws::agrees_with_scalar_i32(&a, &b, 7);
    assert_eq!(wide.0.get_lane(7), scalar.0.value);
    assert_eq!(scalar.0.value, i32::MIN);
    assert_eq!(wide.1.get_lane(7), scalar.1.value);
    assert_eq!(wide.2.get_lane(7), scalar.2.value);
    assert_eq!(scalar.2.value, 0);

    let a8 = I8x32::set1(127);
    let b8 = I8x32::set1(1);
    let (wide8, scalar8) = laws::agrees_with_scalar_i8(&a8, &b8, 0);
    assert_eq!(wide8.0.get_lane(0), -128);
    assert_eq!(scalar8.0.value, -128);
    assert_eq!(wide8.1.get_lane(0), scalar8.1.value);
    assert_eq!(wide8.2.get_lane(0), scalar8.2.value);
}
