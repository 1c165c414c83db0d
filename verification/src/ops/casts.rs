//! The reinterpretation casts of the operation table, scalar engine.
//!
//! A lane moves into the 64-bit binary carrier by a plain integer cast,
//! which sign-extends, and back by a truncating cast, so a round trip
//! reproduces the lane exactly.

use vstd::prelude::*;

use crate::engines::scalar::Scalar;
use crate::lanes;
use crate::ops::{binary, Ops};

verus! {

impl Ops<Scalar, i8> {
    /// The lane's bits in the binary carrier.
    pub fn bitcast_binary(a: i8) -> (r: u64)
        ensures
            r == lanes::i8_to_binary(a),
    {
        #[verifier::truncate] (a as u64)
    }
}

impl Ops<Scalar, i16> {
    /// The lane's bits in the binary carrier.
    pub fn bitcast_binary(a: i16) -> (r: u64)
        ensures
            r == lanes::i16_to_binary(a),
    {
        #[verifier::truncate] (a as u64)
    }
}

impl Ops<Scalar, i32> {
    /// The lane's bits in the binary carrier.
    pub fn bitcast_binary(a: i32) -> (r: u64)
        ensures
            r == lanes::i32_to_binary(a),
    {
        #[verifier::truncate] (a as u64)
    }
}

impl Ops<Scalar, i64> {
    /// The lane's bits in the binary carrier.
    pub fn bitcast_binary(a: i64) -> (r: u64)
        ensures
            r == lanes::i64_to_binary(a),
    {
        #[verifier::truncate] (a as u64)
    }
}

impl Ops<Scalar, binary> {
    /// The carrier's low bits as an 8-bit lane.
    pub fn bitcast_i8(a: u64) -> (r: i8)
        ensures
            r == lanes::binary_to_i8(a),
    {
        #[verifier::truncate] (a as i8)
    }

    /// The carrier's low bits as a 16-bit lane.
    pub fn bitcast_i16(a: u64) -> (r: i16)
        ensures
            r == lanes::binary_to_i16(a),
    {
        #[verifier::truncate] (a as i16)
    }

    /// The carrier's low bits as a 32-bit lane.
    pub fn bitcast_i32(a: u64) -> (r: i32)
        ensures
            r == lanes::binary_to_i32(a),
    {
        #[verifier::truncate] (a as i32)
    }

    /// The carrier's bits as a 64-bit lane.
    pub fn bitcast_i64(a: u64) -> (r: i64)
        ensures
            r == lanes::binary_to_i64(a),
    {
        #[verifier::truncate] (a as i64)
    }
}

} // verus!
