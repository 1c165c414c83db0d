//! The binary-kind entries of the operation table, scalar engine: bitwise
//! operations on a raw 64-bit bag of bits.

use vstd::prelude::*;

use crate::engines::scalar::Scalar;
use crate::ops::{binary, Ops};

verus! {

impl Ops<Scalar, binary> {
    pub fn bit_and(a: u64, b: u64) -> (r: u64)
        ensures
            r == (a & b),
    {
        a & b
    }

    pub fn bit_or(a: u64, b: u64) -> (r: u64)
        ensures
            r == (a | b),
    {
        a | b
    }

    pub fn bit_xor(a: u64, b: u64) -> (r: u64)
        ensures
            r == (a ^ b),
    {
        a ^ b
    }

    pub fn bit_not(a: u64) -> (r: u64)
        ensures
            r == !a,
    {
        !a
    }

    /// And-not: `b` with the bits of `a` cleared.
    pub fn bit_andnot(a: u64, b: u64) -> (r: u64)
        ensures
            r == (!a & b),
    {
        !a & b
    }
}

} // verus!
