//! Scoped exclusive write access to the shared value.
//!
//! A [`GuardMut`] is born holding the shared cell's exclusive lock and a
//! working copy of the current value. The caller edits the copy in place and
//! then hands the guard back to `HArcMut::commit`, which writes the copy
//! through to the shared cell, bumps the revision, installs the copy into
//! the caller's local cache, and releases the lock. Dropping the guard
//! without committing abandons the write and releases the lock: a commit
//! run implicitly on drop would be code outside every contract, so the
//! commit is an explicit, contracted call instead — an amendment to the
//! classic commit-on-scope-exit guard, stated as such in the crate docs.

use crate::cells::ValueGuard;
use vstd::prelude::*;

verus! {

/// Exclusive, scope-bound write access to a handle's shared value.
///
/// While a `GuardMut` exists, no other writer can enter the same shared
/// cell. Hand the guard back to the handle that produced it: committing it
/// to a clone of another handle would desynchronize that handle's cache.
#[verifier::reject_recursive_types(T)]
pub struct GuardMut<T: Clone> {
    /// The held lock on the shared cell.
    pub inner: ValueGuard<T>,
    /// The working copy of the value; edit it freely, it becomes the
    /// committed value.
    pub value: T,
}

} // verus!
