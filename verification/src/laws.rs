//! Laws of the operation table, proved once and holding on every engine.
//!
//! The first group are lane-level facts: the comparison masks obey the
//! expected algebra, wrapping arithmetic is arithmetic modulo 2^width, and
//! blending picks whole lanes.  The second group are engine-generic
//! theorems: written against the vector-engine contract alone, they hold of
//! every implementing type at once — among them the load/store round trip
//! and the agreement of every engine with the width-1 reference.

use vstd::prelude::*;
use vstd::arithmetic::div_mod::{lemma_fundamental_div_mod, lemma_mod_multiples_basic};

use crate::base::{SimdInt16, SimdInt32, SimdInt64, SimdInt8};
use crate::engines::scalar::{I16x1, I32x1, I64x1, I8x1};
use crate::lanes;

verus! {

/// A difference that is a whole number of periods vanishes modulo the
/// period.
proof fn lemma_multiple_vanishes(d: int, q: int, m: int)
    requires
        m > 0,
        d == q * m,
    ensures
        d % m == 0,
{
    lemma_mod_multiples_basic(q, m);
}

/// The masks of the i8 comparisons obey the expected algebra: equal and
/// unequal are bitwise complements, and or-ing the strict mask with the
/// equality mask gives the inclusive mask.
pub proof fn lemma_mask_algebra_i8(a: i8, b: i8)
    ensures
        lanes::mask_i8(a != b) == !lanes::mask_i8(a == b),
        (lanes::mask_i8(a < b) | lanes::mask_i8(a == b)) == lanes::mask_i8(a <= b),
        (lanes::mask_i8(a > b) | lanes::mask_i8(a == b)) == lanes::mask_i8(a >= b),
{
    assert(!(-1i8) == 0i8 && !(0i8) == -1i8 && ((-1i8) | 0i8) == -1i8 && (0i8 | 0i8)
        == 0i8 && (0i8 | -1i8) == -1i8) by (bit_vector);
}

/// Wrapping i8 arithmetic is arithmetic modulo 2^width: each result
/// differs from the exact integer result by a whole number of periods.
pub proof fn lemma_wrapping_i8(a: i8, b: i8)
    ensures
        (lanes::add_i8(a, b) - (a + b)) % 0x100 == 0,
        (lanes::sub_i8(a, b) - (a - b)) % 0x100 == 0,
        (lanes::mul_i8(a, b) - (a * b)) % 0x100 == 0,
{
    let m: int = 0x100;
    let va = lanes::add_i8(a, b) as int;
    if a + b > i8::MAX {
        lemma_multiple_vanishes(va - (a + b), -1, m);
    } else if a + b < i8::MIN {
        lemma_multiple_vanishes(va - (a + b), 1, m);
    } else {
        lemma_multiple_vanishes(va - (a + b), 0, m);
    }
    let vs = lanes::sub_i8(a, b) as int;
    if a - b > i8::MAX {
        lemma_multiple_vanishes(vs - (a - b), -1, m);
    } else if a - b < i8::MIN {
        lemma_multiple_vanishes(vs - (a - b), 1, m);
    } else {
        lemma_multiple_vanishes(vs - (a - b), 0, m);
    }
    let p: int = a * b;
    lemma_fundamental_div_mod(p, m);
    let vm = lanes::mul_i8(a, b) as int;
    if p % m > i8::MAX {
        lemma_multiple_vanishes(vm - p, -(p / m) - 1, m);
    } else {
        lemma_multiple_vanishes(vm - p, -(p / m), m);
    }
}

/// Blending picks whole lanes: a zero mask lane keeps the first operand, a
/// nonzero one (in particular the all-ones lane a comparison produces)
/// takes the second.
pub proof fn lemma_blend_i8(a: i8, b: i8, mask: i8)
    ensures
        mask == 0 ==> lanes::blend_i8(a, b, mask) == a,
        mask != 0 ==> lanes::blend_i8(a, b, mask) == b,
        lanes::blend_i8(a, b, lanes::mask_i8(false)) == a,
        lanes::blend_i8(a, b, lanes::mask_i8(true)) == b,
{
}

/// The load/store round trip, for any engine's i8 vector type: loading a
/// vector and storing it into a fresh buffer of the vector's width
/// reproduces the loaded values exactly.
pub fn round_trip_i8<V: SimdInt8>(src: &Vec<i8>, offset: usize) -> (out: Vec<i8>)
    requires
        offset + V::spec_width() <= src@.len(),
    ensures
        out@ == src@.subrange(offset as int, offset + V::spec_width()),
{
    let v = V::load_unaligned(src, offset);
    proof {
        v.lemma_wf();
    }
    let w = V::width();
    let mut out: Vec<i8> = Vec::new();
    let mut i: usize = 0;
    while i < w
        invariant
            w == V::spec_width(),
            i <= w,
            out@.len() == i,
        decreases w - i,
    {
        out.push(0i8);
        i += 1;
    }
    v.store_unaligned(&mut out, 0);
    proof {
        assert(out@ =~= src@.subrange(offset as int, offset + V::spec_width()));
    }
    out
}

/// Any engine against the width-1 reference: at any lane, the engine's
/// addition, multiplication and less-than mask hold exactly the scalar
/// engine's result on that lane's operands.  The rest of the table agrees
/// the same way: every operation's contract goes through the same lane
/// function on both engines.
pub fn agrees_with_scalar_i8<V: SimdInt8>(a: &V, b: &V, i: usize) -> (r: ((V, V, V), (I8x1, I8x1, I8x1)))
    requires
        a.wf(),
        b.wf(),
        i < V::spec_width(),
    ensures
        r.1.0.value == lanes::add_i8(a.lanes()[i as int], b.lanes()[i as int]),
        r.1.1.value == lanes::mul_i8(a.lanes()[i as int], b.lanes()[i as int]),
        r.1.2.value == lanes::mask_i8(a.lanes()[i as int] < b.lanes()[i as int]),
        r.0.0.lanes()[i as int] == r.1.0.value,
        r.0.1.lanes()[i as int] == r.1.1.value,
        r.0.2.lanes()[i as int] == r.1.2.value,
{
    proof {
        a.lemma_wf();
        b.lemma_wf();
    }
    let sa = I8x1 { value: a.get_lane(i) };
    let sb = I8x1 { value: b.get_lane(i) };
    let ra = sa.add(&sb);
    let rm = sa.mul(&sb);
    let rl = sa.lt(&sb);
    proof {
        assert(ra.lanes()[0] == lanes::add_i8(sa.lanes()[0], sb.lanes()[0]));
        assert(rm.lanes()[0] == lanes::mul_i8(sa.lanes()[0], sb.lanes()[0]));
        assert(rl.lanes()[0] == lanes::mask_i8(sa.lanes()[0] < sb.lanes()[0]));
    }
    ((a.add(b), a.mul(b), a.lt(b)), (ra, rm, rl))
}

/// The scalar engine's bitwise route through the binary carrier: moving a
/// i8 lane into the 64-bit carrier, operating there, and moving back is
/// exactly the lane-wise bitwise operation.
pub proof fn lemma_binary_route_i8(a: i8, b: i8)
    ensures
        lanes::binary_to_i8(lanes::i8_to_binary(a)) == a,
        lanes::binary_to_i8(lanes::i8_to_binary(a) & lanes::i8_to_binary(b)) == (a & b),
        lanes::binary_to_i8(lanes::i8_to_binary(a) | lanes::i8_to_binary(b)) == (a | b),
        lanes::binary_to_i8(lanes::i8_to_binary(a) ^ lanes::i8_to_binary(b)) == (a ^ b),
        lanes::binary_to_i8(!lanes::i8_to_binary(a)) == !a,
        lanes::binary_to_i8(!lanes::i8_to_binary(a) & lanes::i8_to_binary(b)) == (!a & b),
{
    assert(((a as u64) as i8) == a && (((a as u64) & (b as u64)) as i8) == (a & b) && (((a
        as u64) | (b as u64)) as i8) == (a | b) && (((a as u64) ^ (b as u64)) as i8) == (a ^ b)
        && ((!(a as u64)) as i8) == !a && (((!(a as u64)) & (b as u64)) as i8) == (!a
        & b)) by (bit_vector);
}

/// The masks of the i16 comparisons obey the expected algebra: equal and
/// unequal are bitwise complements, and or-ing the strict mask with the
/// equality mask gives the inclusive mask.
pub proof fn lemma_mask_algebra_i16(a: i16, b: i16)
    ensures
        lanes::mask_i16(a != b) == !lanes::mask_i16(a == b),
        (lanes::mask_i16(a < b) | lanes::mask_i16(a == b)) == lanes::mask_i16(a <= b),
        (lanes::mask_i16(a > b) | lanes::mask_i16(a == b)) == lanes::mask_i16(a >= b),
{
    assert(!(-1i16) == 0i16 && !(0i16) == -1i16 && ((-1i16) | 0i16) == -1i16 && (0i16 | 0i16)
        == 0i16 && (0i16 | -1i16) == -1i16) by (bit_vector);
}

/// Wrapping i16 arithmetic is arithmetic modulo 2^width: each result
/// differs from the exact integer result by a whole number of periods.
pub proof fn lemma_wrapping_i16(a: i16, b: i16)
    ensures
        (lanes::add_i16(a, b) - (a + b)) % 0x1_0000 == 0,
        (lanes::sub_i16(a, b) - (a - b)) % 0x1_0000 == 0,
        (lanes::mul_i16(a, b) - (a * b)) % 0x1_0000 == 0,
{
    let m: int = 0x1_0000;
    let va = lanes::add_i16(a, b) as int;
    if a + b > i16::MAX {
        lemma_multiple_vanishes(va - (a + b), -1, m);
    } else if a + b < i16::MIN {
        lemma_multiple_vanishes(va - (a + b), 1, m);
    } else {
        lemma_multiple_vanishes(va - (a + b), 0, m);
    }
    let vs = lanes::sub_i16(a, b) as int;
    if a - b > i16::MAX {
        lemma_multiple_vanishes(vs - (a - b), -1, m);
    } else if a - b < i16::MIN {
        lemma_multiple_vanishes(vs - (a - b), 1, m);
    } else {
        lemma_multiple_vanishes(vs - (a - b), 0, m);
    }
    let p: int = a * b;
    lemma_fundamental_div_mod(p, m);
    let vm = lanes::mul_i16(a, b) as int;
    if p % m > i16::MAX {
        lemma_multiple_vanishes(vm - p, -(p / m) - 1, m);
    } else {
        lemma_multiple_vanishes(vm - p, -(p / m), m);
    }
}

/// Blending picks whole lanes: a zero mask lane keeps the first operand, a
/// nonzero one (in particular the all-ones lane a comparison produces)
/// takes the second.
pub proof fn lemma_blend_i16(a: i16, b: i16, mask: i16)
    ensures
        mask == 0 ==> lanes::blend_i16(a, b, mask) == a,
        mask != 0 ==> lanes::blend_i16(a, b, mask) == b,
        lanes::blend_i16(a, b, lanes::mask_i16(false)) == a,
        lanes::blend_i16(a, b, lanes::mask_i16(true)) == b,
{
}

/// The load/store round trip, for any engine's i16 vector type: loading a
/// vector and storing it into a fresh buffer of the vector's width
/// reproduces the loaded values exactly.
pub fn round_trip_i16<V: SimdInt16>(src: &Vec<i16>, offset: usize) -> (out: Vec<i16>)
    requires
        offset + V::spec_width() <= src@.len(),
    ensures
        out@ == src@.subrange(offset as int, offset + V::spec_width()),
{
    let v = V::load_unaligned(src, offset);
    proof {
        v.lemma_wf();
    }
    let w = V::width();
    let mut out: Vec<i16> = Vec::new();
    let mut i: usize = 0;
    while i < w
        invariant
            w == V::spec_width(),
            i <= w,
            out@.len() == i,
        decreases w - i,
    {
        out.push(0i16);
        i += 1;
    }
    v.store_unaligned(&mut out, 0);
    proof {
        assert(out@ =~= src@.subrange(offset as int, offset + V::spec_width()));
    }
    out
}

/// Any engine against the width-1 reference: at any lane, the engine's
/// addition, multiplication and less-than mask hold exactly the scalar
/// engine's result on that lane's operands.  The rest of the table agrees
/// the same way: every operation's contract goes through the same lane
/// function on both engines.
pub fn agrees_with_scalar_i16<V: SimdInt16>(a: &V, b: &V, i: usize) -> (r: ((V, V, V), (I16x1, I16x1, I16x1)))
    requires
        a.wf(),
        b.wf(),
        i < V::spec_width(),
    ensures
        r.1.0.value == lanes::add_i16(a.lanes()[i as int], b.lanes()[i as int]),
        r.1.1.value == lanes::mul_i16(a.lanes()[i as int], b.lanes()[i as int]),
        r.1.2.value == lanes::mask_i16(a.lanes()[i as int] < b.lanes()[i as int]),
        r.0.0.lanes()[i as int] == r.1.0.value,
        r.0.1.lanes()[i as int] == r.1.1.value,
        r.0.2.lanes()[i as int] == r.1.2.value,
{
    proof {
        a.lemma_wf();
        b.lemma_wf();
    }
    let sa = I16x1 { value: a.get_lane(i) };
    let sb = I16x1 { value: b.get_lane(i) };
    let ra = sa.add(&sb);
    let rm = sa.mul(&sb);
    let rl = sa.lt(&sb);
    proof {
        assert(ra.lanes()[0] == lanes::add_i16(sa.lanes()[0], sb.lanes()[0]));
        assert(rm.lanes()[0] == lanes::mul_i16(sa.lanes()[0], sb.lanes()[0]));
        assert(rl.lanes()[0] == lanes::mask_i16(sa.lanes()[0] < sb.lanes()[0]));
    }
    ((a.add(b), a.mul(b), a.lt(b)), (ra, rm, rl))
}

/// The scalar engine's bitwise route through the binary carrier: moving a
/// i16 lane into the 64-bit carrier, operating there, and moving back is
/// exactly the lane-wise bitwise operation.
pub proof fn lemma_binary_route_i16(a: i16, b: i16)
    ensures
        lanes::binary_to_i16(lanes::i16_to_binary(a)) == a,
        lanes::binary_to_i16(lanes::i16_to_binary(a) & lanes::i16_to_binary(b)) == (a & b),
        lanes::binary_to_i16(lanes::i16_to_binary(a) | lanes::i16_to_binary(b)) == (a | b),
        lanes::binary_to_i16(lanes::i16_to_binary(a) ^ lanes::i16_to_binary(b)) == (a ^ b),
        lanes::binary_to_i16(!lanes::i16_to_binary(a)) == !a,
        lanes::binary_to_i16(!lanes::i16_to_binary(a) & lanes::i16_to_binary(b)) == (!a & b),
{
    assert(((a as u64) as i16) == a && (((a as u64) & (b as u64)) as i16) == (a & b) && (((a
        as u64) | (b as u64)) as i16) == (a | b) && (((a as u64) ^ (b as u64)) as i16) == (a ^ b)
        && ((!(a as u64)) as i16) == !a && (((!(a as u64)) & (b as u64)) as i16) == (!a
        & b)) by (bit_vector);
}

/// The masks of the i32 comparisons obey the expected algebra: equal and
/// unequal are bitwise complements, and or-ing the strict mask with the
/// equality mask gives the inclusive mask.
pub proof fn lemma_mask_algebra_i32(a: i32, b: i32)
    ensures
        lanes::mask_i32(a != b) == !lanes::mask_i32(a == b),
        (lanes::mask_i32(a < b) | lanes::mask_i32(a == b)) == lanes::mask_i32(a <= b),
        (lanes::mask_i32(a > b) | lanes::mask_i32(a == b)) == lanes::mask_i32(a >= b),
{
    assert(!(-1i32) == 0i32 && !(0i32) == -1i32 && ((-1i32) | 0i32) == -1i32 && (0i32 | 0i32)
        == 0i32 && (0i32 | -1i32) == -1i32) by (bit_vector);
}

/// Wrapping i32 arithmetic is arithmetic modulo 2^width: each result
/// differs from the exact integer result by a whole number of periods.
pub proof fn lemma_wrapping_i32(a: i32, b: i32)
    ensures
        (lanes::add_i32(a, b) - (a + b)) % 0x1_0000_0000 == 0,
        (lanes::sub_i32(a, b) - (a - b)) % 0x1_0000_0000 == 0,
        (lanes::mul_i32(a, b) - (a * b)) % 0x1_0000_0000 == 0,
{
    let m: int = 0x1_0000_0000;
    let va = lanes::add_i32(a, b) as int;
    if a + b > i32::MAX {
        lemma_multiple_vanishes(va - (a + b), -1, m);
    } else if a + b < i32::MIN {
        lemma_multiple_vanishes(va - (a + b), 1, m);
    } else {
        lemma_multiple_vanishes(va - (a + b), 0, m);
    }
    let vs = lanes::sub_i32(a, b) as int;
    if a - b > i32::MAX {
        lemma_multiple_vanishes(vs - (a - b), -1, m);
    } else if a - b < i32::MIN {
        lemma_multiple_vanishes(vs - (a - b), 1, m);
    } else {
        lemma_multiple_vanishes(vs - (a - b), 0, m);
    }
    let p: int = a * b;
    lemma_fundamental_div_mod(p, m);
    let vm = lanes::mul_i32(a, b) as int;
    if p % m > i32::MAX {
        lemma_multiple_vanishes(vm - p, -(p / m) - 1, m);
    } else {
        lemma_multiple_vanishes(vm - p, -(p / m), m);
    }
}

/// Blending picks whole lanes: a zero mask lane keeps the first operand, a
/// nonzero one (in particular the all-ones lane a comparison produces)
/// takes the second.
pub proof fn lemma_blend_i32(a: i32, b: i32, mask: i32)
    ensures
        mask == 0 ==> lanes::blend_i32(a, b, mask) == a,
        mask != 0 ==> lanes::blend_i32(a, b, mask) == b,
        lanes::blend_i32(a, b, lanes::mask_i32(false)) == a,
        lanes::blend_i32(a, b, lanes::mask_i32(true)) == b,
{
}

/// The load/store round trip, for any engine's i32 vector type: loading a
/// vector and storing it into a fresh buffer of the vector's width
/// reproduces the loaded values exactly.
pub fn round_trip_i32<V: SimdInt32>(src: &Vec<i32>, offset: usize) -> (out: Vec<i32>)
    requires
        offset + V::spec_width() <= src@.len(),
    ensures
        out@ == src@.subrange(offset as int, offset + V::spec_width()),
{
    let v = V::load_unaligned(src, offset);
    proof {
        v.lemma_wf();
    }
    let w = V::width();
    let mut out: Vec<i32> = Vec::new();
    let mut i: usize = 0;
    while i < w
        invariant
            w == V::spec_width(),
            i <= w,
            out@.len() == i,
        decreases w - i,
    {
        out.push(0i32);
        i += 1;
    }
    v.store_unaligned(&mut out, 0);
    proof {
        assert(out@ =~= src@.subrange(offset as int, offset + V::spec_width()));
    }
    out
}

/// Any engine against the width-1 reference: at any lane, the engine's
/// addition, multiplication and less-than mask hold exactly the scalar
/// engine's result on that lane's operands.  The rest of the table agrees
/// the same way: every operation's contract goes through the same lane
/// function on both engines.
pub fn agrees_with_scalar_i32<V: SimdInt32>(a: &V, b: &V, i: usize) -> (r: ((V, V, V), (I32x1, I32x1, I32x1)))
    requires
        a.wf(),
        b.wf(),
        i < V::spec_width(),
    ensures
        r.1.0.value == lanes::add_i32(a.lanes()[i as int], b.lanes()[i as int]),
        r.1.1.value == lanes::mul_i32(a.lanes()[i as int], b.lanes()[i as int]),
        r.1.2.value == lanes::mask_i32(a.lanes()[i as int] < b.lanes()[i as int]),
        r.0.0.lanes()[i as int] == r.1.0.value,
        r.0.1.lanes()[i as int] == r.1.1.value,
        r.0.2.lanes()[i as int] == r.1.2.value,
{
    proof {
        a.lemma_wf();
        b.lemma_wf();
    }
    let sa = I32x1 { value: a.get_lane(i) };
    let sb = I32x1 { value: b.get_lane(i) };
    let ra = sa.add(&sb);
    let rm = sa.mul(&sb);
    let rl = sa.lt(&sb);
    proof {
        assert(ra.lanes()[0] == lanes::add_i32(sa.lanes()[0], sb.lanes()[0]));
        assert(rm.lanes()[0] == lanes::mul_i32(sa.lanes()[0], sb.lanes()[0]));
        assert(rl.lanes()[0] == lanes::mask_i32(sa.lanes()[0] < sb.lanes()[0]));
    }
    ((a.add(b), a.mul(b), a.lt(b)), (ra, rm, rl))
}

/// The scalar engine's bitwise route through the binary carrier: moving a
/// i32 lane into the 64-bit carrier, operating there, and moving back is
/// exactly the lane-wise bitwise operation.
pub proof fn lemma_binary_route_i32(a: i32, b: i32)
    ensures
        lanes::binary_to_i32(lanes::i32_to_binary(a)) == a,
        lanes::binary_to_i32(lanes::i32_to_binary(a) & lanes::i32_to_binary(b)) == (a & b),
        lanes::binary_to_i32(lanes::i32_to_binary(a) | lanes::i32_to_binary(b)) == (a | b),
        lanes::binary_to_i32(lanes::i32_to_binary(a) ^ lanes::i32_to_binary(b)) == (a ^ b),
        lanes::binary_to_i32(!lanes::i32_to_binary(a)) == !a,
        lanes::binary_to_i32(!lanes::i32_to_binary(a) & lanes::i32_to_binary(b)) == (!a & b),
{
    assert(((a as u64) as i32) == a && (((a as u64) & (b as u64)) as i32) == (a & b) && (((a
        as u64) | (b as u64)) as i32) == (a | b) && (((a as u64) ^ (b as u64)) as i32) == (a ^ b)
        && ((!(a as u64)) as i32) == !a && (((!(a as u64)) & (b as u64)) as i32) == (!a
        & b)) by (bit_vector);
}

/// The masks of the i64 comparisons obey the expected algebra: equal and
/// unequal are bitwise complements, and or-ing the strict mask with the
/// equality mask gives the inclusive mask.
pub proof fn lemma_mask_algebra_i64(a: i64, b: i64)
    ensures
        lanes::mask_i64(a != b) == !lanes::mask_i64(a == b),
        (lanes::mask_i64(a < b) | lanes::mask_i64(a == b)) == lanes::mask_i64(a <= b),
        (lanes::mask_i64(a > b) | lanes::mask_i64(a == b)) == lanes::mask_i64(a >= b),
{
    assert(!(-1i64) == 0i64 && !(0i64) == -1i64 && ((-1i64) | 0i64) == -1i64 && (0i64 | 0i64)
        == 0i64 && (0i64 | -1i64) == -1i64) by (bit_vector);
}

/// Wrapping i64 arithmetic is arithmetic modulo 2^width: each result
/// differs from the exact integer result by a whole number of periods.
pub proof fn lemma_wrapping_i64(a: i64, b: i64)
    ensures
        (lanes::add_i64(a, b) - (a + b)) % 0x1_0000_0000_0000_0000 == 0,
        (lanes::sub_i64(a, b) - (a - b)) % 0x1_0000_0000_0000_0000 == 0,
        (lanes::mul_i64(a, b) - (a * b)) % 0x1_0000_0000_0000_0000 == 0,
{
    let m: int = 0x1_0000_0000_0000_0000;
    let va = lanes::add_i64(a, b) as int;
    if a + b > i64::MAX {
        lemma_multiple_vanishes(va - (a + b), -1, m);
    } else if a + b < i64::MIN {
        lemma_multiple_vanishes(va - (a + b), 1, m);
    } else {
        lemma_multiple_vanishes(va - (a + b), 0, m);
    }
    let vs = lanes::sub_i64(a, b) as int;
    if a - b > i64::MAX {
        lemma_multiple_vanishes(vs - (a - b), -1, m);
    } else if a - b < i64::MIN {
        lemma_multiple_vanishes(vs - (a - b), 1, m);
    } else {
        lemma_multiple_vanishes(vs - (a - b), 0, m);
    }
    let p: int = a * b;
    lemma_fundamental_div_mod(p, m);
    let vm = lanes::mul_i64(a, b) as int;
    if p % m > i64::MAX {
        lemma_multiple_vanishes(vm - p, -(p / m) - 1, m);
    } else {
        lemma_multiple_vanishes(vm - p, -(p / m), m);
    }
}

/// Blending picks whole lanes: a zero mask lane keeps the first operand, a
/// nonzero one (in particular the all-ones lane a comparison produces)
/// takes the second.
pub proof fn lemma_blend_i64(a: i64, b: i64, mask: i64)
    ensures
        mask == 0 ==> lanes::blend_i64(a, b, mask) == a,
        mask != 0 ==> lanes::blend_i64(a, b, mask) == b,
        lanes::blend_i64(a, b, lanes::mask_i64(false)) == a,
        lanes::blend_i64(a, b, lanes::mask_i64(true)) == b,
{
}

/// The load/store round trip, for any engine's i64 vector type: loading a
/// vector and storing it into a fresh buffer of the vector's width
/// reproduces the loaded values exactly.
pub fn round_trip_i64<V: SimdInt64>(src: &Vec<i64>, offset: usize) -> (out: Vec<i64>)
    requires
        offset + V::spec_width() <= src@.len(),
    ensures
        out@ == src@.subrange(offset as int, offset + V::spec_width()),
{
    let v = V::load_unaligned(src, offset);
    proof {
        v.lemma_wf();
    }
    let w = V::width();
    let mut out: Vec<i64> = Vec::new();
    let mut i: usize = 0;
    while i < w
        invariant
            w == V::spec_width(),
            i <= w,
            out@.len() == i,
        decreases w - i,
    {
        out.push(0i64);
        i += 1;
    }
    v.store_unaligned(&mut out, 0);
    proof {
        assert(out@ =~= src@.subrange(offset as int, offset + V::spec_width()));
    }
    out
}

/// Any engine against the width-1 reference: at any lane, the engine's
/// addition, multiplication and less-than mask hold exactly the scalar
/// engine's result on that lane's operands.  The rest of the table agrees
/// the same way: every operation's contract goes through the same lane
/// function on both engines.
pub fn agrees_with_scalar_i64<V: SimdInt64>(a: &V, b: &V, i: usize) -> (r: ((V, V, V), (I64x1, I64x1, I64x1)))
    requires
        a.wf(),
        b.wf(),
        i < V::spec_width(),
    ensures
        r.1.0.value == lanes::add_i64(a.lanes()[i as int], b.lanes()[i as int]),
        r.1.1.value == lanes::mul_i64(a.lanes()[i as int], b.lanes()[i as int]),
        r.1.2.value == lanes::mask_i64(a.lanes()[i as int] < b.lanes()[i as int]),
        r.0.0.lanes()[i as int] == r.1.0.value,
        r.0.1.lanes()[i as int] == r.1.1.value,
        r.0.2.lanes()[i as int] == r.1.2.value,
{
    proof {
        a.lemma_wf();
        b.lemma_wf();
    }
    let sa = I64x1 { value: a.get_lane(i) };
    let sb = I64x1 { value: b.get_lane(i) };
    let ra = sa.add(&sb);
    let rm = sa.mul(&sb);
    let rl = sa.lt(&sb);
    proof {
        assert(ra.lanes()[0] == lanes::add_i64(sa.lanes()[0], sb.lanes()[0]));
        assert(rm.lanes()[0] == lanes::mul_i64(sa.lanes()[0], sb.lanes()[0]));
        assert(rl.lanes()[0] == lanes::mask_i64(sa.lanes()[0] < sb.lanes()[0]));
    }
    ((a.add(b), a.mul(b), a.lt(b)), (ra, rm, rl))
}

/// The scalar engine's bitwise route through the binary carrier: moving a
/// i64 lane into the 64-bit carrier, operating there, and moving back is
/// exactly the lane-wise bitwise operation.
pub proof fn lemma_binary_route_i64(a: i64, b: i64)
    ensures
        lanes::binary_to_i64(lanes::i64_to_binary(a)) == a,
        lanes::binary_to_i64(lanes::i64_to_binary(a) & lanes::i64_to_binary(b)) == (a & b),
        lanes::binary_to_i64(lanes::i64_to_binary(a) | lanes::i64_to_binary(b)) == (a | b),
        lanes::binary_to_i64(lanes::i64_to_binary(a) ^ lanes::i64_to_binary(b)) == (a ^ b),
        lanes::binary_to_i64(!lanes::i64_to_binary(a)) == !a,
        lanes::binary_to_i64(!lanes::i64_to_binary(a) & lanes::i64_to_binary(b)) == (!a & b),
{
    assert(((a as u64) as i64) == a && (((a as u64) & (b as u64)) as i64) == (a & b) && (((a
        as u64) | (b as u64)) as i64) == (a | b) && (((a as u64) ^ (b as u64)) as i64) == (a ^ b)
        && ((!(a as u64)) as i64) == !a && (((!(a as u64)) & (b as u64)) as i64) == (!a
        & b)) by (bit_vector);
}

} // verus!
