//! The fixed-capacity `arrayvec::ArrayVec` that holds a shoe's cards, and
//! the contracts of the few of its methods the shoe calls.

use arrayvec::{ArrayVec, CapacityError};
use vstd::prelude::*;

use crate::{Card, MAX_SHOE_SIZE};

verus! {

/// `arrayvec::ArrayVec`, carried through verified code as an opaque value.
#[verifier::external_type_specification]
#[verifier::external_body]
#[verifier::reject_recursive_types(T)]
pub struct ExArrayVec<T, const CAP: usize>(ArrayVec<T, CAP>);

/// `arrayvec::CapacityError`, the error of a push or extend that does not fit.
#[verifier::external_type_specification]
#[verifier::external_body]
#[verifier::reject_recursive_types(T)]
pub struct ExCapacityError<T>(CapacityError<T>);

/// The cards an `ArrayVec` of shoe capacity holds, in order.
pub uninterp spec fn card_array_contents(v: ArrayVec<Card, MAX_SHOE_SIZE>) -> Seq<Card>;

/// Calls `ArrayVec::new`. Claims that the new vector holds no card (the
/// source sets its length to 0; the capacity is far below the `u32::MAX`
/// limit on which `new` panics).
#[verifier::external_body]
pub(crate) fn card_array_new() -> (v: ArrayVec<Card, MAX_SHOE_SIZE>)
    ensures
        card_array_contents(v) == Seq::<Card>::empty(),
{
    ArrayVec::new()
}

/// Calls `ArrayVec::try_extend_from_slice`. Claims what its source shows: it
/// fails, leaving the vector as it was, exactly when the cards held plus
/// those of `other` exceed the capacity; otherwise it appends a copy of
/// `other` to the end.
#[verifier::external_body]
pub(crate) fn card_array_try_extend_from_slice(
    v: &mut ArrayVec<Card, MAX_SHOE_SIZE>,
    other: &[Card],
) -> (res: Result<(), CapacityError>)
    ensures
        (res is Ok) <==> card_array_contents(*old(v)).len() + other@.len() <= MAX_SHOE_SIZE,
        res is Ok ==> card_array_contents(*final(v)) == card_array_contents(*old(v)) + other@,
        res is Err ==> card_array_contents(*final(v)) == card_array_contents(*old(v)),
{
    v.try_extend_from_slice(other)
}

/// Indexes an `ArrayVec` through its `Deref` to a slice. Claims that the
/// result is the card at position `i`; `requires` leaves out the positions
/// past the end, on which the index panics.
#[verifier::external_body]
pub(crate) fn card_array_get(v: &ArrayVec<Card, MAX_SHOE_SIZE>, i: usize) -> (c: Card)
    requires
        i < card_array_contents(*v).len(),
    ensures
        c == card_array_contents(*v)[i as int],
{
    v[i]
}

} // verus!
