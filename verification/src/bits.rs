//! Trusted boundary around `bit_vec::BitVec`, the packed bit storage that
//! backs the grid. The contents of a bit vector are named by the
//! uninterpreted `bits_of`; each wrapper states, over that name, what the
//! crate's source shows of the method it calls.

use vstd::prelude::*;

verus! {

#[verifier::external_type_specification]
#[verifier::external_body]
#[verifier::reject_recursive_types(B)]
pub struct ExBitVec<B>(bit_vec::BitVec<B>);

/// The boolean contents of a bit vector, index by index.
pub uninterp spec fn bits_of(v: bit_vec::BitVec) -> Seq<bool>;

/// Relies on `bit_vec::BitVec::from_elem`: a vector of `nbits` bits, each
/// set to the given element, here always dead (`false`).
#[verifier::external_body]
pub(crate) fn bits_new(nbits: usize) -> (v: bit_vec::BitVec)
    ensures
        bits_of(v) == Seq::new(nbits as nat, |i: int| false),
{
    bit_vec::BitVec::from_elem(nbits, false)
}

/// Relies on `bit_vec::BitVec::get`: `Some` of bit `i` when `i` is in range,
/// `None` past the end.
#[verifier::external_body]
pub(crate) fn bits_get(v: &bit_vec::BitVec, i: usize) -> (b: Option<bool>)
    ensures
        i < bits_of(*v).len() ==> b == Some(bits_of(*v)[i as int]),
        i >= bits_of(*v).len() ==> b is None,
{
    v.get(i)
}

/// Relies on `bit_vec::BitVec::set`: writes bit `i` and nothing else. It
/// panics past the end, which the precondition rules out.
#[verifier::external_body]
pub(crate) fn bits_set(v: &mut bit_vec::BitVec, i: usize, x: bool)
    requires
        i < bits_of(*old(v)).len(),
    ensures
        bits_of(*final(v)) == bits_of(*old(v)).update(i as int, x),
{
    v.set(i, x)
}

} // verus!
