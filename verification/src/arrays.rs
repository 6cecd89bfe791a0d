//! What this crate takes on trust of two array functions of the standard
//! library. Nothing here is proved: each contract restates what the
//! function is documented to do.

use vstd::prelude::*;

verus! {

/// `From<[X; 2]> for (X, X)` moves the two items of an array into a tuple
/// and keeps their order: the array's first item is the tuple's first.
pub assume_specification<X>[ <(X, X) as core::convert::From<[X; 2]>>::from ](a: [X; 2]) -> (t: (X, X))
    ensures
        t.0 == a@[0],
        t.1 == a@[1],
;

/// `<[X; N]>::each_mut` borrows every item of an array for writing and
/// returns the borrows in the array's order. Each borrow starts at its
/// item's value, and what it holds when it ends is the item's value from
/// then on.
pub assume_specification<X, const N: usize>[ <[X; N]>::each_mut ](a: &mut [X; N]) -> (refs: [&mut X; N])
    ensures
        forall|i: int| 0 <= i < N ==> *(#[trigger] refs@[i]) == old(a)@[i],
        forall|i: int| 0 <= i < N ==> final(a)@[i] == *final(#[trigger] refs@[i]),
;

} // verus!
