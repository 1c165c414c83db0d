//! The operation table.
//!
//! One `impl` block per (engine, element kind) pair supplies every operation
//! of the table for that pair, as associated functions of [`Ops`].  The
//! scalar entries are the width-1 reference semantics; the wide engines'
//! entries live with their vector types and promise the same lane meaning.

use core::marker::PhantomData;
use vstd::prelude::*;

pub mod bit;
pub mod casts;
pub mod i16;
pub mod i32;
pub mod i64;
pub mod i8;

verus! {

/// The element kind of raw untyped bits, as moved by the bitwise operations
/// and the reinterpretation casts.  On the scalar engine its carrier is a
/// plain `u64`.
#[allow(non_camel_case_types)]
pub struct binary;

/// The operation table, addressed by engine tag and element kind: the entry
/// for, say, wrapping addition of 32-bit lanes on the scalar engine is
/// `Ops::<Scalar, i32>::add`.
#[verifier::reject_recursive_types(T)]
#[verifier::reject_recursive_types(T2)]
pub struct Ops<T, T2>(PhantomData<(T, T2)>);

} // verus!
