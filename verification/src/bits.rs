//! Trusted boundary to the `bit_vec` crate.
//!
//! A calibration mask is persisted and matched as a `bit_vec::BitVec`. The
//! type is opaque to the verifier, so its contents are named by the
//! uninterpreted function `bv_bits`, and each method the matcher uses is
//! wrapped with a contract that states, over `bv_bits`, what the crate's
//! source shows.

use vstd::prelude::*;

verus! {

#[verifier::external_type_specification]
#[verifier::external_body]
#[verifier::reject_recursive_types(B)]
pub struct ExBitVec<B>(bit_vec::BitVec<B>);

/// The bits a `bit_vec::BitVec` holds, lowest index first.
pub uninterp spec fn bv_bits(v: bit_vec::BitVec) -> Seq<bool>;

/// Relies on bit_vec::BitVec::with_capacity: the result has capacity for
/// `capacity` bits but holds none.
#[verifier::external_body]
pub fn bv_with_capacity(capacity: usize) -> (r: bit_vec::BitVec)
    ensures
        bv_bits(r) == Seq::<bool>::empty(),
{
    bit_vec::BitVec::with_capacity(capacity)
}

/// Relies on bit_vec::BitVec::push: appends one bit. It panics only when the
/// length would overflow `usize`.
#[verifier::external_body]
pub fn bv_push(v: &mut bit_vec::BitVec, bit: bool)
    requires
        bv_bits(*old(v)).len() < usize::MAX,
    ensures
        bv_bits(*final(v)) == bv_bits(*old(v)).push(bit),
{
    v.push(bit)
}

/// Relies on bit_vec::BitVec::len: the number of bits held.
#[verifier::external_body]
pub fn bv_len(v: &bit_vec::BitVec) -> (r: usize)
    ensures
        r == bv_bits(*v).len(),
{
    v.len()
}

/// Relies on bit_vec::BitVec::get: the bit at `i`, or `None` past the end.
#[verifier::external_body]
pub fn bv_get(v: &bit_vec::BitVec, i: usize) -> (r: Option<bool>)
    ensures
        i < bv_bits(*v).len() ==> r == Some(bv_bits(*v)[i as int]),
        i >= bv_bits(*v).len() ==> r is None,
{
    v.get(i)
}

/// Relies on bit_vec::BitVec::xor: sets `v` to the bitwise xor of `v` and
/// `other`. It panics when the lengths differ, so equal lengths are required.
#[verifier::external_body]
pub fn bv_xor(v: &mut bit_vec::BitVec, other: &bit_vec::BitVec) -> (changed: bool)
    requires
        bv_bits(*old(v)).len() == bv_bits(*other).len(),
    ensures
        bv_bits(*final(v)).len() == bv_bits(*old(v)).len(),
        forall|i: int|
            0 <= i < bv_bits(*old(v)).len() ==> bv_bits(*final(v))[i] == (bv_bits(*old(v))[i]
                != bv_bits(*other)[i]),
{
    v.xor(other)
}

/// How many bits of a sequence are set.
pub open spec fn ones(s: Seq<bool>) -> nat
    decreases s.len(),
{
    if s.len() == 0 {
        0
    } else {
        ones(s.drop_last()) + if s.last() {
            1nat
        } else {
            0nat
        }
    }
}

/// Relies on bit_vec::BitVec::count_ones: the number of set bits.
#[verifier::external_body]
pub fn bv_count_ones(v: &bit_vec::BitVec) -> (r: u64)
    ensures
        r == ones(bv_bits(*v)),
{
    v.count_ones()
}

} // verus!
