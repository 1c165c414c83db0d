//! A SIMD abstraction layer with verified lane-wise semantics.
//!
//! A single numeric routine can be written once against the vector-engine
//! contract and instantiated for several back ends: a scalar engine whose
//! "vector" is one lane, and a 256-bit engine whose vectors hold 32 bytes of
//! lanes.  Every engine must give each operation the same per-lane meaning;
//! that portability contract is what the `ensures` clauses of the operation
//! table state, and what the lemmas in this crate prove.
//!
//! The crate is organised as the contract is:
//! - [`lanes`] gives every operation its per-lane meaning, once;
//! - [`base`] declares, per element kind, what a vector type must provide;
//! - [`engines`] holds the engine tags and their vector types;
//! - [`ops`] is the operation table: one entry per (operation, kind, engine);
//! - [`invoking`] is the dispatch layer that turns one generic routine into
//!   scalar, wide and runtime-selected entry points;
//! - [`laws`] proves the laws the table obeys, for every engine at once.
//!
//! The integer element kinds are covered in full.  Floating-point lanes are
//! outside Verus's reach, so the f32/f64 entries of the table, like the raw
//! hardware intrinsics, belong to the unverified rim around this library.

use vstd::prelude::*;

pub mod base;
pub mod engines;
pub mod invoking;
pub mod lanes;
pub mod laws;
pub mod sse41;
pub mod ops;

pub use engines::avx2::Avx2;
pub use engines::scalar::Scalar;

verus! {

/// The engine contract: a zero-sized capability tag naming one hardware
/// target.  It associates a vector type to each integer element kind and
/// owns the feature-verification boundary `invoke`, through which every
/// computation on this engine's vectors must pass.
pub trait Simd: Sized {
    /// Vector of 8-bit lanes on this engine.
    type Vi8: base::SimdInt8;

    /// Vector of 16-bit lanes on this engine.
    type Vi16: base::SimdInt16;

    /// Vector of 32-bit lanes on this engine.
    type Vi32: base::SimdInt32;

    /// Vector of 64-bit lanes on this engine.
    type Vi64: base::SimdInt64;

    /// The feature-verification boundary.  The computation runs only inside
    /// this call, and the call adds nothing and takes nothing away: whatever
    /// the computation promises holds of what `invoke` returns.
    fn invoke<R, F: FnOnce() -> R>(f: F) -> (r: R)
        requires
            call_requires(f, ()),
        ensures
            call_ensures(f, (), r),
    ;
}

} // verus!
