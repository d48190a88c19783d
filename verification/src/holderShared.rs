//! The shared cell: the single authoritative value, its revision counter and
//! the teardown flag, reachable from every clone of a handle.
//!
//! The value sits behind a blocking exclusive lock; the revision counter and
//! the flag sit in atomically swappable cells so a reader can check for
//! staleness without ever taking the value lock.

use crate::cells::{FlagCell, ValueCell, ValueGuard, VersionCell};
use vstd::prelude::*;

verus! {

/// The revision that follows `prior`: its successor, wrapping only at the
/// unreachable horizon of `u64::MAX` commits.
pub open spec fn nextRevision(prior: u64) -> u64 {
    if prior == u64::MAX {
        0u64
    } else {
        (prior + 1) as u64
    }
}

/// Compute the revision that follows `prior` — the one deterministic step
/// of the counter strategy, contracted exactly.
pub fn nextVersion(prior: u64) -> (r: u64)
    ensures
        r == nextRevision(prior),
{
    prior.wrapping_add(1)
}

/// The single source of truth shared by all clones of a handle.
#[verifier::reject_recursive_types(T)]
pub struct HolderShared<T: Clone> {
    version: VersionCell,
    Data: ValueCell<T>,
    wantDrop: FlagCell,
}

impl<T: Clone> HolderShared<T> {
    /// A fresh cell: revision at the baseline 0, the given value, teardown
    /// not requested.
    pub fn new(data: T) -> Self {
        HolderShared {
            version: VersionCell::new(0),
            Data: ValueCell::new(data),
            wantDrop: FlagCell::new(false),
        }
    }

    /// Advance the revision counter by one and return the new revision:
    /// the successor of the counter that was read is stored and returned.
    /// Which counter was read cannot be promised of a shared cell, so the
    /// contract names it only as a witness; [`nextVersion`] carries the
    /// exact arithmetic.
    ///
    /// A caller racing other writers must hold this cell's value lock: the
    /// lock is what serializes the read-increment-store sequence, keeping
    /// two commits from taking the same revision. The counter wraps after
    /// `u64::MAX` commits, a horizon no process reaches; up to it the
    /// revision strictly increases with every commit.
    pub fn updateVersion(&self) -> (r: u64)
        ensures
            exists|prior: u64| r == nextRevision(prior),
    {
        let prior: u64 = self.version.load();
        let newv: u64 = nextVersion(prior);
        self.version.store(newv);
        newv
    }

    /// The current revision, read without taking the value lock.
    pub fn loadVersion(&self) -> u64 {
        self.version.load()
    }

    /// Clone the current value out from under a briefly held lock.
    pub(crate) fn lockClone(&self) -> T {
        self.Data.lockClone()
    }

    /// Take the exclusive value lock; it is held until the guard is dropped.
    pub(crate) fn lock(&self) -> ValueGuard<T> {
        self.Data.lock()
    }

    /// The current state of the teardown flag.
    pub(crate) fn loadWantDrop(&self) -> bool {
        self.wantDrop.load()
    }

    /// Raise the teardown flag. This is the only store the library ever
    /// makes to the flag after construction, so it moves from `false` to
    /// `true` at most once and is never lowered again.
    pub(crate) fn setWantDrop(&self) {
        self.wantDrop.store(true)
    }
}

} // verus!
