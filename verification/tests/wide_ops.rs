//! The wide engines' vectors on concrete values: lane-wise semantics,
//! widths, load/store round trips, masks, blends and extensions.

use simdeez::base::{SimdInt16, SimdInt32, SimdInt64, SimdInt8};
use simdeez::engines::avx2::{I16x16, I32x8, I64x4, I8x32};
use simdeez::sse41::{I32x4_41, I64x2_41};

#[test]
fn widths_are_fixed_per_kind_and_engine() {
    assert_eq!(I8x32::width(), 32);
    assert_eq!(I16x16::width(), 16);
    assert_eq!(I32x8::width(), 8);
    assert_eq!(I64x4::width(), 4);
    assert_eq!(I32x4_41::width(), 4);
    assert_eq!(I64x2_41::width(), 2);
    assert_eq!(<simdeez::engines::scalar::I32x1 as SimdInt32>::width(), 1);
}

#[test]
fn load_store_round_trip_reproduces_the_values() {
    let src: Vec<i32> = vec![3, 1, 4, 1, 5, 9, 2, 6, -5, -3, 5, 8];
    let v = I32x8::load_unaligned(&src, 2);
    let mut out: Vec<i32> = vec![0; 8];
    v.store_unaligned(&mut out, 0);
    assert_eq!(out, src[2..10].to_vec());

    let src8: Vec<i8> = (0..40).map(|x| (x * 3 - 60) as i8).collect();
    let v8 = I8x32::load_unaligned(&src8, 5);
    let mut out8: Vec<i8> = vec![0; 32];
    v8.store_unaligned(&mut out8, 0);
    assert_eq!(out8, src8[5..37].to_vec());
}

#[test]
fn aligned_transfers_match_the_unaligned_ones() {
    let src: Vec<i32> = vec![7, 6, 5, 4, 3, 2, 1, 0, -1, -2];
    let a = I32x8::load_aligned(&src, 1);
    let u = I32x8::load_unaligned(&src, 1);
    let mut out_a: Vec<i32> = vec![0; 8];
    let mut out_u: Vec<i32> = vec![0; 8];
    a.store_aligned(&mut out_a, 0);
    u.store_unaligned(&mut out_u, 0);
    assert_eq!(out_a, out_u);
    assert_eq!(out_a, src[1..9].to_vec());
}

#[test]
fn store_leaves_the_rest_of_the_buffer_alone() {
    let v = I64x4::set1(7);
    let mut buf: Vec<i64> = vec![1, 2, 3, 4, 5, 6, 7, 8];
    v.store_unaligned(&mut buf, 2);
    assert_eq!(buf, vec![1, 2, 7, 7, 7, 7, 7, 8]);
}

#[test]
fn zeroes_set1_and_lane_access() {
    let z = I16x16::zeroes();
    for i in 0..16 {
        assert_eq!(z.get_lane(i), 0);
    }
    let mut s = I16x16::set1(-42);
    assert_eq!(s.get_lane(9), -42);
    s.set_lane(9, 11);
    assert_eq!(s.get_lane(9), 11);
    assert_eq!(s.get_lane(8), -42);
}

#[test]
fn arithmetic_is_lane_wise_and_wrapping() {
    let src_a: Vec<i32> = vec![1, 2, 3, 4, 5, 6, 7, 8];
    let src_b: Vec<i32> = vec![8, 7, 6, 5, 4, 3, 2, 1];
    let a = I32x8::load_unaligned(&src_a, 0);
    let b = I32x8::load_unaligned(&src_b, 0);
    let sum = a.add(&b);
    for i in 0..8 {
        assert_eq!(sum.get_lane(i), 9);
    }
    let top = I8x32::set1(127);
    let one = I8x32::set1(1);
    let wrapped = top.add(&one);
    for i in 0..32 {
        assert_eq!(wrapped.get_lane(i), -128);
    }
    let p = I64x4::set1(i64::MAX).mul(&I64x4::set1(2));
    for i in 0..4 {
        assert_eq!(p.get_lane(i), -2);
    }
    let d = a.sub(&b);
    assert_eq!(d.get_lane(0), -7);
    assert_eq!(d.get_lane(7), 7);
}

#[test]
fn comparisons_give_per_lane_masks() {
    let a = I32x8::load_unaligned(&vec![1, 2, 3, 4, 5, 6, 7, 8], 0);
    let b = I32x8::load_unaligned(&vec![8, 2, 6, 4, 2, 6, 0, 8], 0);
    let eq = a.eq(&b);
    let expect = [0, -1, 0, -1, 0, -1, 0, -1];
    for i in 0..8 {
        assert_eq!(eq.get_lane(i), expect[i]);
    }
    let neq = a.neq(&b);
    for i in 0..8 {
        assert_eq!(neq.get_lane(i), !expect[i]);
    }
    let lt = a.lt(&b);
    let lte = a.lte(&b);
    let gt = a.gt(&b);
    let gte = a.gte(&b);
    for i in 0..8 {
        assert_eq!(lt.get_lane(i) | eq.get_lane(i), lte.get_lane(i));
        assert_eq!(gt.get_lane(i) | eq.get_lane(i), gte.get_lane(i));
    }
}

#[test]
fn blendv_by_mask_lane() {
    let a = I32x8::set1(10);
    let b = I32x8::set1(20);
    let mut mask = I32x8::zeroes();
    mask.set_lane(1, -1);
    mask.set_lane(3, -1);
    // One partial mask lane: nonzero but not all-ones takes b by the
    // documented convention.
    mask.set_lane(5, 1);
    let r = a.blendv(&b, &mask);
    assert_eq!(
        (0..8).map(|i| r.get_lane(i)).collect::<Vec<i32>>(),
        vec![10, 20, 10, 20, 10, 20, 10, 10]
    );

    let a8 = I8x32::set1(1);
    let b8 = I8x32::set1(2);
    let mut m8 = I8x32::zeroes();
    m8.set_lane(0, 0x40);
    let r8 = a8.blendv(&b8, &m8);
    assert_eq!(r8.get_lane(0), 2);
    assert_eq!(r8.get_lane(1), 1);

    let a16 = I16x16::set1(1);
    let b16 = I16x16::set1(2);
    let mut m16 = I16x16::zeroes();
    m16.set_lane(2, 1);
    assert_eq!(a16.blendv(&b16, &m16).get_lane(2), 2);

    let a64 = I64x2_41::set1(1);
    let b64 = I64x2_41::set1(2);
    let mut m64 = I64x2_41::zeroes();
    m64.set_lane(1, i64::MIN);
    let r64 = a64.blendv(&b64, &m64);
    assert_eq!(r64.get_lane(0), 1);
    assert_eq!(r64.get_lane(1), 2);

    let aw = I64x4::set1(1);
    let bw = I64x4::set1(2);
    let mut mw = I64x4::zeroes();
    mw.set_lane(2, 2);
    let rw = aw.blendv(&bw, &mw);
    assert_eq!(rw.get_lane(1), 1);
    assert_eq!(rw.get_lane(2), 2);
}

#[test]
fn shifts_apply_one_count_to_every_lane() {
    let v = I16x16::set1(-2);
    let r = v.shr(1);
    for i in 0..16 {
        assert_eq!(r.get_lane(i), 32767);
    }
    let l = I32x8::set1(3).shl(4);
    for i in 0..8 {
        assert_eq!(l.get_lane(i), 48);
    }
}

#[test]
fn compile_time_count_shifts_on_vectors() {
    let v = I32x8::set1(3);
    let l = v.shl_const::<4>();
    for i in 0..8 {
        assert_eq!(l.get_lane(i), 48);
    }
    let r = I8x32::set1(-1).shr_const::<1>();
    for i in 0..32 {
        assert_eq!(r.get_lane(i), 127);
    }
    assert_eq!(I64x2_41::set1(-8).shr_const::<3>().get_lane(1), 0x1FFF_FFFF_FFFF_FFFF);
}

#[test]
fn bitwise_lane_ops() {
    let a = I32x8::set1(0b1100);
    let b = I32x8::set1(0b1010);
    assert_eq!(a.bit_and(&b).get_lane(0), 0b1000);
    assert_eq!(a.bit_or(&b).get_lane(0), 0b1110);
    assert_eq!(a.bit_xor(&b).get_lane(0), 0b0110);
    assert_eq!(a.bit_not().get_lane(0), !0b1100);
    assert_eq!(a.bit_andnot(&b).get_lane(0), !0b1100 & 0b1010);
}

#[test]
fn extension_splits_into_widened_halves() {
    let mut v = I16x16::zeroes();
    for i in 0..16 {
        v.set_lane(i, i as i16 - 8);
    }
    v.set_lane(0, 300);
    let (lo, hi) = v.extend_i32();
    assert_eq!(lo.get_lane(0), 300);
    for i in 1..8 {
        assert_eq!(lo.get_lane(i), i as i32 - 8);
    }
    for i in 0..8 {
        assert_eq!(hi.get_lane(i), i as i32);
    }
    // The concatenated halves are the widened lanes of the input vector.
    let whole: Vec<i32> = (0..8).map(|i| lo.get_lane(i)).chain((0..8).map(|i| hi.get_lane(i))).collect();
    let expect: Vec<i32> = (0..16).map(|i| v.get_lane(i) as i32).collect();
    assert_eq!(whole, expect);

    let m = I8x32::set1(-1);
    let (slo, shi) = m.extend_i16();
    let (ulo, uhi) = m.unsigned_extend_i16();
    for i in 0..16 {
        assert_eq!(slo.get_lane(i), -1);
        assert_eq!(shi.get_lane(i), -1);
        assert_eq!(ulo.get_lane(i), 255);
        assert_eq!(uhi.get_lane(i), 255);
    }

    let w = I32x4_41::set1(-7);
    let (wlo, whi) = w.unsigned_extend_i64();
    assert_eq!(wlo.get_lane(0), 0xFFFF_FFF9);
    assert_eq!(wlo.get_lane(1), 0xFFFF_FFF9);
    assert_eq!(whi.get_lane(0), 0xFFFF_FFF9);
    assert_eq!(whi.get_lane(1), 0xFFFF_FFF9);
}

#[test]
fn horizontal_add_sums_all_lanes_with_wrapping() {
    let mut v = I64x4::zeroes();
    v.set_lane(0, 1);
    v.set_lane(1, 2);
    v.set_lane(2, 3);
    v.set_lane(3, 4);
    assert_eq!(v.horizontal_add(), 10);

    let mut w = I64x4::zeroes();
    w.set_lane(0, i64::MAX);
    w.set_lane(1, 1);
    assert_eq!(w.horizontal_add(), i64::MIN);

    let mut t = I64x2_41::zeroes();
    t.set_lane(0, -5);
    t.set_lane(1, 9);
    assert_eq!(t.horizontal_add(), 4);
}

#[test]
fn movemask_and_truthiness() {
    let mut v = I8x32::zeroes();
    v.set_lane(0, -1);
    v.set_lane(3, -1);
    v.set_lane(31, -1);
    assert_eq!(v.get_mask(), (1 << 0) | (1 << 3) | (1u32 << 31));
    assert!(v.is_truthy());
    assert!(!I8x32::zeroes().is_truthy());
    let mut one = I8x32::zeroes();
    one.set_lane(17, 5);
    assert!(one.is_truthy());
}

#[test]
fn abs_lane_wise_and_wrapping_at_the_minimum() {
    let mut v = I32x8::set1(-9);
    v.set_lane(0, 9);
    v.set_lane(1, i32::MIN);
    let r = v.abs();
    assert_eq!(r.get_lane(0), 9);
    assert_eq!(r.get_lane(1), i32::MIN);
    for i in 2..8 {
        assert_eq!(r.get_lane(i), 9);
    }
    let m = I64x2_41::set1(i64::MIN + 1);
    assert_eq!(m.abs().get_lane(0), i64::MAX);
    assert_eq!(I8x32::set1(i8::MIN).abs().get_lane(17), i8::MIN);
}

#[test]
fn min_max_lane_wise() {
    let a = I32x4_41::load_unaligned(&vec![1, -2, 3, -4], 0);
    let b = I32x4_41::load_unaligned(&vec![-1, 2, -3, 4], 0);
    let mn = a.min(&b);
    let mx = a.max(&b);
    assert_eq!((0..4).map(|i| mn.get_lane(i)).collect::<Vec<i32>>(), vec![-1, -2, -3, -4]);
    assert_eq!((0..4).map(|i| mx.get_lane(i)).collect::<Vec<i32>>(), vec![1, 2, 3, 4]);
}
