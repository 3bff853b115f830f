use crate::layout::{empty_vec, layout_compatible, recycle};
use vstd::prelude::*;

verus! {

/// A `Vec<T>` that borrows its allocation from a holder's `Vec<S>` and gives it back,
/// emptied and typed as `Vec<S>` again, when it is dropped.
pub struct VecStorageReuse<'a, T, S> {
    storage: &'a mut Vec<S>,
    inner: Vec<T>,
}

impl<'a, T, S> VecStorageReuse<'a, T, S> {
    #[verifier::type_invariant]
    closed spec fn layout_inv(&self) -> bool {
        layout_compatible::<T, S>()
    }

    /// The working vector's elements.
    pub closed spec fn view(&self) -> Seq<T> {
        self.inner@
    }

    /// The reference to the holder's vector that this guard keeps.
    pub closed spec fn holder(&self) -> &'a mut Vec<S> {
        self.storage
    }

    /// While the guard lives, the holder's vector is left empty.
    pub closed spec fn wf(&self) -> bool {
        self.storage@.len() == 0
    }

    /// Takes the vector out of `storage`, drops its elements and reuses its allocation
    /// for an empty `Vec<T>`. `T` must have the size and alignment of `S`.
    pub fn new(storage: &'a mut Vec<S>) -> (r: Self)
        requires
            layout_compatible::<T, S>(),
        ensures
            r@ == Seq::<T>::empty(),
            r.wf(),
            *final(storage) == *final(r.holder()),
    {
        let mut taken: Vec<S> = Vec::new();
        core::mem::swap(storage, &mut taken);
        let inner: Vec<T> = recycle(taken);
        VecStorageReuse { storage, inner }
    }
}

/// Passes a mutable borrow through, so that one can be taken of a field of a type with an
/// invariant.
fn reborrow<V>(v: &mut V) -> (r: &mut V)
    ensures
        *r == *old(v),
        *final(v) == *final(r),
    no_unwind
{
    v
}

impl<'a, T, S> Drop for VecStorageReuse<'a, T, S> {
    /// Hands the allocation back to the holder, emptied and typed as `Vec<S>`; this runs
    /// however the guard's scope ends.
    fn drop(&mut self)
        ensures
            final(self)@ == Seq::<T>::empty(),
            final(self).wf(),
        opens_invariants none
        no_unwind
    {
        proof {
            use_type_invariant(&*self);
        }
        let mut taken: Vec<T> = empty_vec();
        core::mem::swap(&mut self.inner, &mut taken);
        *self.storage = recycle(taken);
    }
}

// Every guard pairs layouts that match: the type invariant says so, and `deref` and
// `deref_mut` hand that fact on to their callers.
impl<'a, T, S> core::ops::Deref for VecStorageReuse<'a, T, S> {
    type Target = Vec<T>;

    fn deref(&self) -> (r: &Vec<T>)
        ensures
            r@ == self@,
            layout_compatible::<T, S>(),
    {
        proof {
            use_type_invariant(self);
        }
        &self.inner
    }
}

// Every guard pairs layouts that match: the type invariant says so, and `deref` and
// `deref_mut` hand that fact on to their callers.
impl<'a, T, S> core::ops::DerefMut for VecStorageReuse<'a, T, S> {
    fn deref_mut(&mut self) -> (r: &mut Vec<T>)
        ensures
            r@ == old(self)@,
            final(r)@ == final(self)@,
            final(self).holder() == old(self).holder(),
            final(self).wf() == old(self).wf(),
            layout_compatible::<T, S>(),
    {
        proof {
            use_type_invariant(&*self);
        }
        reborrow(&mut self.inner)
    }
}

} // verus!
