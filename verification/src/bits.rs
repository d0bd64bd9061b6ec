//! The bit-packed storage behind a grid: `bit_vec::BitVec`, as far as the
//! engine uses it.
//!
//! Nothing in this file is proved. Each function below makes one call into
//! `bit_vec`, and its contract states what that call does to the bits that
//! the vector holds.

use bit_vec::BitVec;
use vstd::prelude::*;

verus! {

#[verifier::external_type_specification]
#[verifier::external_body]
#[verifier::reject_recursive_types(B)]
pub struct ExBitVec<B>(bit_vec::BitVec<B>);

/// The bits that a `BitVec` holds, in index order.
pub uninterp spec fn bit_contents(v: BitVec) -> Seq<bool>;

/// `BitVec::from_elem`: a vector of `nbits` bits, each equal to `bit`.
#[verifier::external_body]
pub(crate) fn bits_from_elem(nbits: usize, bit: bool) -> (v: BitVec)
    ensures
        bit_contents(v) == Seq::new(nbits as nat, |i: int| bit),
{
    BitVec::from_elem(nbits, bit)
}

/// `BitVec::len`: the number of bits held.
#[verifier::external_body]
pub(crate) fn bits_len(v: &BitVec) -> (n: usize)
    ensures
        n == bit_contents(*v).len(),
{
    v.len()
}

/// `BitVec::get`: the bit at index `i`, or `None` where `i` is past the end.
#[verifier::external_body]
pub(crate) fn bits_get(v: &BitVec, i: usize) -> (bit: Option<bool>)
    ensures
        bit == if i < bit_contents(*v).len() {
            Some(bit_contents(*v)[i as int])
        } else {
            None
        },
{
    v.get(i)
}

/// `BitVec::set`: the bit at index `i` becomes `x`, every other bit stays.
/// The call panics where `i` is past the end, so such an `i` is not admitted.
#[verifier::external_body]
pub(crate) fn bits_set(v: &mut BitVec, i: usize, x: bool)
    requires
        i < bit_contents(*old(v)).len(),
    ensures
        bit_contents(*final(v)) == bit_contents(*old(v)).update(i as int, x),
{
    v.set(i, x)
}

/// `BitVec::clear`: every bit becomes `false`; the length stays.
#[verifier::external_body]
pub(crate) fn bits_clear(v: &mut BitVec)
    ensures
        bit_contents(*final(v)) == Seq::new(bit_contents(*old(v)).len(), |i: int| false),
{
    v.clear()
}

/// `BitVec::clone`: a vector that holds the same bits.
#[verifier::external_body]
pub(crate) fn bits_clone(v: &BitVec) -> (copy: BitVec)
    ensures
        bit_contents(copy) == bit_contents(*v),
{
    v.clone()
}

} // verus!
