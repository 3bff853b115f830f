//! Reuse of a `Vec`'s allocation across batches of differently typed elements.
//!
//! A [`VecStorageForReuse<S>`] owns a vector that is only ever used for its allocation.
//! [`VecStorageForReuse::reuse_allocation`] lends that allocation out as an empty `Vec<T>`
//! inside a [`VecStorageReuse`] guard; when the guard goes away, the allocation goes back
//! to the holder, emptied and typed as `Vec<S>` again.
use vstd::prelude::*;

mod guard;
mod holder;
mod layout;

pub use guard::VecStorageReuse;
pub use holder::VecStorageForReuse;
pub use layout::layout_compatible;
