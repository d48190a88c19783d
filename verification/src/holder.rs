//! The timestamp-based revision strategy: shared cell and local cache
//! variants whose revision marker is the wall clock in nanoseconds instead
//! of a counter.
//!
//! The counter strategy of [`crate::holderShared`] and
//! [`crate::holderLocal`] is strictly monotonic by construction and is the
//! preferred design. This variant is only for settings that need revisions
//! comparable across processes or machines, and it carries a documented
//! caveat: the wall clock may stall or go backward, so two distinct commits
//! can receive indistinguishable stamps, and a reader comparing stamps may
//! then miss one of them. The library never corrects for that silently.

use crate::cells::{clockNanos, TimeCell, ValueCell};
use std::sync::Arc;
use vstd::prelude::*;

verus! {

/// The current wall clock as a revision stamp: nanoseconds since the Unix
/// epoch. Two calls are unrelated — the clock may stall or go backward,
/// which is this strategy's documented weakness.
pub fn getTime() -> u128 {
    clockNanos()
}

/// The shared cell of the timestamp strategy: the authoritative value
/// behind an exclusive lock, and the stamp of the last commit.
#[verifier::reject_recursive_types(T)]
pub struct HolderShared<T: Clone> {
    TimeUpdate: TimeCell,
    Data: ValueCell<T>,
}

impl<T: Clone> HolderShared<T> {
    /// A fresh cell stamped with the current clock.
    pub fn new(data: T) -> Self {
        HolderShared { TimeUpdate: TimeCell::new(getTime()), Data: ValueCell::new(data) }
    }

    /// Restamp the cell with the current clock and return the new stamp.
    ///
    /// A caller racing other writers must hold this cell's value lock to
    /// serialize commits. Unlike the counter strategy's revision bump, this
    /// stamp is not guaranteed to exceed the previous one: that is this
    /// strategy's documented weakness.
    pub fn updateTime(&self) -> u128 {
        let tmp: u128 = getTime();
        self.TimeUpdate.store(tmp);
        tmp
    }

    /// The stamp of the last commit, read without taking the value lock.
    pub fn loadTime(&self) -> u128 {
        self.TimeUpdate.load()
    }

    /// Clone the current value out from under a briefly held lock.
    pub(crate) fn lockClone(&self) -> T {
        self.Data.lockClone()
    }
}

/// The per-handle cache of the timestamp strategy: a snapshot and the stamp
/// it was captured at. Owned by one handle clone, never shared, so its
/// fields are plain data updated through `&mut self`.
pub struct HolderLocal<T: Clone> {
    /// The stamp this snapshot was captured at.
    pub TimeUpdate: u128,
    /// Cheaply shareable snapshot of the shared value as of `TimeUpdate`.
    pub Data: Arc<T>,
}

impl<T: Clone> HolderLocal<T> {
    /// Seed a fresh cache with the given snapshot, stamped with the current
    /// clock.
    pub fn new(data: T) -> (r: Self)
        ensures
            r.Data == data,
    {
        HolderLocal { TimeUpdate: getTime(), Data: Arc::new(data) }
    }

    /// The staleness test: strictly behind `other`. An equal stamp is never
    /// stale — which is exactly why a stalled clock can hide a commit under
    /// this strategy.
    pub fn isOlderThan(&self, other: u128) -> (r: bool)
        ensures
            r == (self.TimeUpdate < other),
    {
        self.TimeUpdate < other
    }

    /// Refresh this cache from the shared cell if it has fallen behind:
    /// when the observed stamp is strictly newer, the shared value is
    /// cloned and snapshot and stamp are installed as one unit. When it is
    /// not newer, nothing is touched.
    pub fn updateIfOlder(&mut self, shared: &HolderShared<T>)
        ensures
            final(self).TimeUpdate >= old(self).TimeUpdate,
            final(self).TimeUpdate == old(self).TimeUpdate ==> *final(self) == *old(self),
    {
        let time: u128 = shared.loadTime();
        if self.isOlderThan(time) {
            let content = shared.lockClone();
            self.refresh(time, content);
        }
    }

    /// Install one observation of the shared cell: the stamp that was read
    /// and the value cloned under the lock, as one unit, exactly.
    pub fn refresh(&mut self, stamp: u128, data: T)
        ensures
            final(self).TimeUpdate == stamp,
            final(self).Data == data,
    {
        self.TimeUpdate = stamp;
        self.Data = Arc::new(data);
    }
}

impl<T: Clone> Clone for HolderLocal<T> {
    /// Duplicating a cache copies the stamp and a shared reference to the
    /// same immutable snapshot.
    fn clone(&self) -> (r: Self)
        ensures
            r == *self,
    {
        HolderLocal { TimeUpdate: self.TimeUpdate, Data: self.Data.clone() }
    }
}

} // verus!
