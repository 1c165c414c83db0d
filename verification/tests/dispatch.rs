//! The dispatch layer: one routine body, written once against the engine
//! contract, reached through every generated entry point.

use simdeez::base::{SimdInt32, SimdInt64};
use simdeez::engines::avx2::{I32x8, I64x4};
use simdeez::engines::scalar::I32x1;
use simdeez::invoking::add_inside_the_boundary;
use simdeez::invoking::{
    run_simd_invoke_avx2, select_engine, Avx2Runner, EngineKind, __SimdRunner,
    __run_simd_compiletime_select, __run_simd_generic, __run_simd_invoke_avx2,
    __run_simd_invoke_scalar, __run_simd_runtime_decide,
};
use simdeez::{Avx2, Scalar, Simd};

/// Adds two equal-length lists, a vector-width chunk at a time, with a
/// scalar tail: the classic shape of a routine written once against the
/// engine contract.
struct AddLists;

impl __SimdRunner<(Vec<i32>, Vec<i32>), Vec<i32>> for AddLists {
    fn run<S: Simd>(args: (Vec<i32>, Vec<i32>)) -> Vec<i32> {
        S::invoke(move || {
            let (x, y) = args;
            let w = <S::Vi32 as SimdInt32>::width();
            let mut out = vec![0i32; x.len()];
            let mut i = 0;
            while i + w <= x.len() {
                let a = <S::Vi32 as SimdInt32>::load_unaligned(&x, i);
                let b = <S::Vi32 as SimdInt32>::load_unaligned(&y, i);
                a.add(&b).store_unaligned(&mut out, i);
                i += w;
            }
            while i < x.len() {
                out[i] = x[i].wrapping_add(y[i]);
                i += 1;
            }
            out
        })
    }
}

fn inputs() -> (Vec<i32>, Vec<i32>) {
    let x: Vec<i32> = (1..=11).collect();
    let y: Vec<i32> = (1..=11).rev().collect();
    (x, y)
}

#[test]
fn every_entry_point_computes_the_same_answer() {
    let expect = vec![12i32; 11];
    let (x, y) = inputs();
    assert_eq!(
        __run_simd_runtime_decide::<AddLists, _, _>((x.clone(), y.clone()), true),
        expect
    );
    assert_eq!(
        __run_simd_runtime_decide::<AddLists, _, _>((x.clone(), y.clone()), false),
        expect
    );
    assert_eq!(
        __run_simd_compiletime_select::<AddLists, _, _>((x.clone(), y.clone())),
        expect
    );
    assert_eq!(
        __run_simd_invoke_scalar::<AddLists, _, _>((x.clone(), y.clone())),
        expect
    );
    assert_eq!(
        __run_simd_invoke_avx2::<AddLists, _, _>((x.clone(), y.clone())),
        expect
    );
    assert_eq!(
        __run_simd_generic::<Scalar, AddLists, _, _>((x.clone(), y.clone())),
        expect
    );
    assert_eq!(__run_simd_generic::<Avx2, AddLists, _, _>((x, y)), expect);
}

#[test]
fn the_selector_is_deterministic_and_respects_the_capability_bit() {
    assert_eq!(select_engine(true), EngineKind::Avx2);
    assert_eq!(select_engine(false), EngineKind::Scalar);
    assert_eq!(select_engine(true), select_engine(true));
}

/// A routine written for the wide engine alone.
struct SumFour;

impl Avx2Runner<(i64, i64, i64, i64), i64> for SumFour {
    fn run(args: (i64, i64, i64, i64)) -> i64 {
        Avx2::invoke(move || {
            let mut v = I64x4::zeroes();
            v.set_lane(0, args.0);
            v.set_lane(1, args.1);
            v.set_lane(2, args.2);
            v.set_lane(3, args.3);
            v.horizontal_add()
        })
    }
}

#[test]
fn the_wide_only_entry_point_runs_inside_invoke() {
    assert_eq!(run_simd_invoke_avx2::<SumFour, _, _>((1, 2, 3, 4)), 10);
    assert_eq!(
        run_simd_invoke_avx2::<SumFour, _, _>((i64::MAX, 1, 0, 0)),
        i64::MIN
    );
}

#[test]
fn invoke_is_a_passthrough() {
    assert_eq!(Scalar::invoke(|| 5), 5);
    assert_eq!(Avx2::invoke(|| "boundary"), "boundary");
}

#[test]
fn the_boundary_routine_runs_on_both_engines() {
    let a = I32x8::set1(i32::MAX);
    let b = I32x8::set1(2);
    let r = add_inside_the_boundary::<Avx2>(&a, &b);
    for i in 0..8 {
        assert_eq!(r.get_lane(i), i32::MIN + 1);
    }
    let sa = I32x1 { value: 40 };
    let sb = I32x1 { value: 2 };
    assert_eq!(add_inside_the_boundary::<Scalar>(&sa, &sb).value, 42);
}
