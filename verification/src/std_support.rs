//! Contracts for the few standard-library items that the containers call and
//! that come without a specification. Verus takes these contracts on trust.

use vstd::prelude::*;

verus! {

/// The mutable iterator that `<[T]>::iter_mut` returns. Its inside is hidden
/// from proofs.
#[verifier::external_type_specification]
#[verifier::external_body]
#[verifier::reject_recursive_types(T)]
pub struct ExIterMut<'a, T: 'a>(core::slice::IterMut<'a, T>);

/// Calls `<[T]>::iter_mut`.
///
/// The iterator hands out a mutable reference to each element in turn, so the
/// caller may overwrite elements; the contract claims only that the slice has
/// as many elements when the borrow ends as it had before.
#[verifier::external_body]
pub(crate) fn slice_iter_mut<'a, T>(slice: &'a mut [T]) -> (it: core::slice::IterMut<'a, T>)
    ensures
        final(slice)@.len() == old(slice)@.len(),
{
    slice.iter_mut()
}

/// Calls `Vec::capacity`.
///
/// The capacity depends on what the allocator gave; the contract claims only
/// that it is never below the length.
#[verifier::external_body]
pub(crate) fn vec_capacity<T>(vec: &Vec<T>) -> (capacity: usize)
    ensures
        capacity >= vec@.len(),
{
    vec.capacity()
}

/// Calls `Vec::shrink_to_fit`, which may release unused capacity and keeps
/// the elements as they are.
#[verifier::external_body]
pub(crate) fn vec_shrink_to_fit<T>(vec: &mut Vec<T>)
    ensures
        final(vec)@ == old(vec)@,
{
    vec.shrink_to_fit()
}

} // verus!
