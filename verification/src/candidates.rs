//! A bounded list of candidate direction codes, kept in arrayvec's
//! fixed-capacity vector as the growth machine gathers the legal moves of a
//! tick.

use vstd::prelude::*;

verus! {

/// Makes arrayvec's fixed-capacity vector known to the verifier as an
/// opaque type.
#[verifier::external_type_specification]
#[verifier::external_body]
#[verifier::reject_recursive_types(T)]
pub struct ExArrayVec<T, const CAP: usize>(arrayvec::ArrayVec<T, CAP>);

/// The direction codes a candidate list holds, oldest first.
pub uninterp spec fn candidate_codes(v: arrayvec::ArrayVec<u8, 6>) -> Seq<u8>;

/// Relies on arrayvec::ArrayVec::new: the new vector is empty.
#[verifier::external_body]
pub(crate) fn candidates_new() -> (v: arrayvec::ArrayVec<u8, 6>)
    ensures
        candidate_codes(v) == Seq::<u8>::empty(),
{
    arrayvec::ArrayVec::new()
}

/// Relies on arrayvec::ArrayVec::push: appends one element at the end; the
/// call panics only when the vector is already full, which the precondition
/// rules out.
#[verifier::external_body]
pub(crate) fn candidates_push(v: &mut arrayvec::ArrayVec<u8, 6>, code: u8)
    requires
        candidate_codes(*old(v)).len() < 6,
    ensures
        candidate_codes(*final(v)) == candidate_codes(*old(v)).push(code),
{
    v.push(code)
}

/// Relies on arrayvec::ArrayVec::len: the number of elements held.
#[verifier::external_body]
pub(crate) fn candidates_len(v: &arrayvec::ArrayVec<u8, 6>) -> (n: usize)
    ensures
        n == candidate_codes(*v).len(),
{
    v.len()
}

/// Relies on the slice indexing arrayvec exposes through Deref: the element
/// at position `i`; the call panics only out of bounds, which the
/// precondition rules out.
#[verifier::external_body]
pub(crate) fn candidates_get(v: &arrayvec::ArrayVec<u8, 6>, i: usize) -> (code: u8)
    requires
        i < candidate_codes(*v).len(),
    ensures
        code == candidate_codes(*v)[i as int],
{
    v[i]
}

} // verus!
