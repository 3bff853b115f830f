use vstd::layout::{align_of, size_of};
use vstd::prelude::*;

verus! {

/// Values of `A` and of `B` may live in one allocation: they have the same size and the
/// same alignment.
pub open spec fn layout_compatible<A, B>() -> bool {
    size_of::<A>() == size_of::<B>() && align_of::<A>() == align_of::<B>()
}

/// Relies on `Vec::new`: it returns an empty vector and allocates nothing, so it cannot
/// fail. A destructor may only call functions that cannot unwind, and this says so of
/// `Vec::new`.
#[verifier::external_body]
pub(crate) fn empty_vec<V>() -> (r: Vec<V>)
    ensures
        r@ == Seq::<V>::empty(),
    opens_invariants none
    no_unwind
{
    Vec::new()
}

/// Relies on `recycle_vec::VecExt::recycle`: it clears the vector, dropping its elements,
/// and returns the same allocation as an empty `Vec<U>`. The crate checks the layouts at
/// compile time, so a call never panics at run time; that the elements' destructors do
/// not unwind is assumed here, as for every drop in verified code.
#[verifier::external_body]
pub(crate) fn recycle<T, U>(v: Vec<T>) -> (r: Vec<U>)
    requires
        layout_compatible::<T, U>(),
    ensures
        r@ == Seq::<U>::empty(),
    opens_invariants none
    no_unwind
{
    recycle_vec::VecExt::recycle(v)
}

} // verus!
