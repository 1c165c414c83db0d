//! The dispatch layer.
//!
//! A generic routine is written once as a type implementing [`__SimdRunner`]
//! (its `run` takes the routine's arguments gathered into one tuple-shaped
//! value, so every routine has the same shape here).  The functions below
//! are the generated entry points: one generic over the engine, one fixed
//! to the scalar engine, one fixed to the wide engine, one selecting at
//! run time from a capability bit, and one resolving at build time.

use vstd::prelude::*;

use crate::base::SimdInt32;
use crate::engines::avx2::Avx2;
use crate::engines::scalar::Scalar;
use crate::lanes;
use crate::Simd;

verus! {

/// The engine a dispatch decision picked.
#[derive(Clone, Copy, Debug, PartialEq, Eq, Structural)]
pub enum EngineKind {
    /// The width-1 fallback, always available.
    Scalar,
    /// The 256-bit engine, usable only where its hardware feature is
    /// present.
    Avx2,
}

/// The runtime selection rule: the wide engine exactly when its feature is
/// available, the scalar fallback otherwise.  Deterministic in the
/// capability bit, and never the wide engine without the feature.
pub fn select_engine(avx2_available: bool) -> (e: EngineKind)
    ensures
        avx2_available ==> e == EngineKind::Avx2,
        !avx2_available ==> e == EngineKind::Scalar,
{
    if avx2_available {
        EngineKind::Avx2
    } else {
        EngineKind::Scalar
    }
}

/// One generic routine, as the dispatch layer sees it: a body that can run
/// on any engine, over arguments gathered into the single value `A`.
#[allow(non_camel_case_types)]
pub trait __SimdRunner<A, R> {
    /// Runs the routine's body on the engine `S`.
    fn run<S: Simd>(args: A) -> R;
}

/// A routine instantiated for the wide engine alone.
pub trait Avx2Runner<A, R> {
    /// Runs the routine's body on the wide engine.
    fn run(args: A) -> R;
}

/// The generic entry point: the caller picks the engine; no selection
/// happens here, and the result is whatever the routine's run on that
/// engine returns for these arguments.
pub fn __run_simd_generic<E: Simd, S: __SimdRunner<A, R>, A, R>(args: A) -> (r: R)
    ensures
        call_ensures(S::run::<E>, (args,), r),
{
    S::run::<E>(args)
}

/// The runtime-selecting entry point.  The capability bit comes from the
/// caller, which learns it at the program's edge; the routine runs on the
/// wide engine exactly when the bit is set, on the scalar fallback
/// otherwise, and the result is that engine's run of the routine on these
/// arguments.
pub fn __run_simd_runtime_decide<S: __SimdRunner<A, R>, A, R>(
    args: A,
    avx2_available: bool,
) -> (r: R)
    ensures
        avx2_available ==> call_ensures(S::run::<Avx2>, (args,), r),
        !avx2_available ==> call_ensures(S::run::<Scalar>, (args,), r),
{
    let e = select_engine(avx2_available);
    match e {
        EngineKind::Avx2 => S::run::<Avx2>(args),
        EngineKind::Scalar => S::run::<Scalar>(args),
    }
}

/// The build-time-selecting entry point: resolved to the widest engine this
/// build carries, with no runtime branch; the result is that engine's run
/// of the routine on these arguments.
pub fn __run_simd_compiletime_select<S: __SimdRunner<A, R>, A, R>(args: A) -> (r: R)
    ensures
        call_ensures(S::run::<Avx2>, (args,), r),
{
    S::run::<Avx2>(args)
}

/// The scalar entry point: always available, the correctness baseline; the
/// result is the scalar engine's run of the routine on these arguments.
pub fn __run_simd_invoke_scalar<S: __SimdRunner<A, R>, A, R>(args: A) -> (r: R)
    ensures
        call_ensures(S::run::<Scalar>, (args,), r),
{
    S::run::<Scalar>(args)
}

/// The wide entry point of a generic routine: the result is the wide
/// engine's run of the routine on these arguments.
pub fn __run_simd_invoke_avx2<S: __SimdRunner<A, R>, A, R>(args: A) -> (r: R)
    ensures
        call_ensures(S::run::<Avx2>, (args,), r),
{
    S::run::<Avx2>(args)
}

/// The wide entry point of a routine written for the wide engine alone:
/// the result is that routine's run on these arguments.
pub fn run_simd_invoke_avx2<S: Avx2Runner<A, R>, A, R>(args: A) -> (r: R)
    ensures
        call_ensures(S::run, (args,), r),
{
    S::run(args)
}

/// The feature-verification boundary at work, on any engine: the routine's
/// body runs only inside `invoke`, and the boundary neither adds to nor
/// takes from what the body promises — here, a lane-wise wrapping sum.
pub fn add_inside_the_boundary<S: Simd>(a: &S::Vi32, b: &S::Vi32) -> (r: S::Vi32)
    requires
        a.wf(),
        b.wf(),
    ensures
        r.wf(),
        r.lanes().len() == a.lanes().len(),
        forall|j: int|
            0 <= j < r.lanes().len() ==> #[trigger] r.lanes()[j] == lanes::add_i32(
                a.lanes()[j],
                b.lanes()[j],
            ),
{
    let body = || -> (r: S::Vi32)
        ensures
            r.wf(),
            r.lanes().len() == a.lanes().len(),
            forall|j: int|
                0 <= j < r.lanes().len() ==> #[trigger] r.lanes()[j] == lanes::add_i32(
                    a.lanes()[j],
                    b.lanes()[j],
                ),
        {
            a.add(b)
        };
    S::invoke(body)
}

} // verus!
