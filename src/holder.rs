use crate::guard::VecStorageReuse;
use crate::layout::layout_compatible;
use vstd::layout::size_of;
use vstd::prelude::*;

verus! {

/// Owns a `Vec<S>` that is reached only to lend its allocation out, retyped, through
/// [`VecStorageForReuse::reuse_allocation`].
pub struct VecStorageForReuse<S> {
    inner: Vec<S>,
}

impl<S> VecStorageForReuse<S> {
    /// The stored vector's elements.
    pub closed spec fn view(&self) -> Seq<S> {
        self.inner@
    }

    /// The stored vector itself, allocation included.
    pub closed spec fn storage(&self) -> Vec<S> {
        self.inner
    }

    /// A holder with an empty vector that has not allocated.
    pub fn new() -> (r: Self)
        ensures
            r@ == Seq::<S>::empty(),
    {
        VecStorageForReuse { inner: Vec::new() }
    }

    /// A holder with an empty vector with room for at least `capacity` elements.
    pub fn with_capacity(capacity: usize) -> (r: Self)
        requires
            size_of::<S>() == 0 || capacity as int * size_of::<S>() <= isize::MAX as int,
        ensures
            r@ == Seq::<S>::empty(),
    {
        VecStorageForReuse { inner: Vec::with_capacity(capacity) }
    }

    /// Lends the stored allocation out as an empty `Vec<T>`; the stored elements are
    /// dropped. The holder cannot be reached until the guard is gone, and then holds
    /// what the guard handed back.
    pub fn reuse_allocation<'a, T>(&'a mut self) -> (r: VecStorageReuse<'a, T, S>)
        requires
            layout_compatible::<T, S>(),
        ensures
            r@ == Seq::<T>::empty(),
            r.wf(),
            final(self)@ == final(r.holder())@,
    {
        VecStorageReuse::new(&mut self.inner)
    }

    /// A holder that stores `vec_to_use_as_storage` as it is, elements included.
    pub fn from_vec(vec_to_use_as_storage: Vec<S>) -> (r: Self)
        ensures
            r.storage() == vec_to_use_as_storage,
            r@ == vec_to_use_as_storage@,
    {
        VecStorageForReuse { inner: vec_to_use_as_storage }
    }

    /// The stored vector.
    pub fn into_inner(self) -> (r: Vec<S>)
        ensures
            r == self.storage(),
            r@ == self@,
    {
        self.inner
    }
}

} // verus!
