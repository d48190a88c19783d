//! The shared synchronization primitives, taken on trust.
//!
//! Every type here is reachable from several handle clones at once, possibly
//! on several threads, so between any two calls another thread may have
//! changed what a cell holds. No contract below therefore promises which
//! value comes back out of a cell: the verified protocol code is written so
//! that it is correct for every value these calls can return.

use std::sync::Arc;
use std::time::{SystemTime, UNIX_EPOCH};
use vstd::prelude::*;

verus! {

/// Nanoseconds since the Unix epoch, as a plain integer.
///
/// Relies on `std::time::SystemTime::now`: the result depends on the wall
/// clock at the moment of the call, so nothing relates two calls — the
/// clock may stall or go backward. A clock before the epoch reads as 0.
#[verifier::external_body]
pub(crate) fn clockNanos() -> u128 {
    SystemTime::now().duration_since(UNIX_EPOCH).unwrap_or_default().as_nanos()
}

/// An atomically swappable revision counter, shared by all clones of a
/// handle.
#[verifier::external_body]
pub struct VersionCell {
    cell: arc_swap::ArcSwap<u64>,
}

impl VersionCell {
    /// Relies on `arc_swap::ArcSwapAny::new` to store the initial counter.
    #[verifier::external_body]
    pub(crate) fn new(v: u64) -> Self {
        VersionCell { cell: arc_swap::ArcSwap::new(Arc::new(v)) }
    }

    /// Relies on `arc_swap::ArcSwapAny::load`: an atomic, lock-free read of
    /// the counter. Another thread may replace the counter at any moment, so
    /// nothing can be said of the value.
    #[verifier::external_body]
    pub(crate) fn load(&self) -> u64 {
        **self.cell.load()
    }

    /// Relies on `arc_swap::ArcSwapAny::store`: atomically replaces the
    /// counter, so that later loads on any thread see `v` or a value stored
    /// after it.
    #[verifier::external_body]
    pub(crate) fn store(&self, v: u64) {
        self.cell.store(Arc::new(v));
    }
}

/// An atomically swappable commit stamp for the timestamp revision
/// strategy, shared by all clones of a handle.
#[verifier::external_body]
pub struct TimeCell {
    cell: arc_swap::ArcSwap<u128>,
}

impl TimeCell {
    /// Relies on `arc_swap::ArcSwapAny::new` to store the initial stamp.
    #[verifier::external_body]
    pub(crate) fn new(v: u128) -> Self {
        TimeCell { cell: arc_swap::ArcSwap::new(Arc::new(v)) }
    }

    /// Relies on `arc_swap::ArcSwapAny::load`: an atomic, lock-free read of
    /// the stamp. Another thread may replace the stamp at any moment, so
    /// nothing can be said of the value.
    #[verifier::external_body]
    pub(crate) fn load(&self) -> u128 {
        **self.cell.load()
    }

    /// Relies on `arc_swap::ArcSwapAny::store`: atomically replaces the
    /// stamp.
    #[verifier::external_body]
    pub(crate) fn store(&self, v: u128) {
        self.cell.store(Arc::new(v));
    }
}

/// The one-way teardown flag, shared by all clones of a handle.
#[verifier::external_body]
pub struct FlagCell {
    cell: arc_swap::ArcSwap<bool>,
}

impl FlagCell {
    /// Relies on `arc_swap::ArcSwapAny::new` to store the initial flag.
    #[verifier::external_body]
    pub(crate) fn new(v: bool) -> Self {
        FlagCell { cell: arc_swap::ArcSwap::new(Arc::new(v)) }
    }

    /// Relies on `arc_swap::ArcSwapAny::load`: an atomic read of the flag.
    /// Which of `false`/`true` is current cannot be stated of a shared
    /// cell.
    #[verifier::external_body]
    pub(crate) fn load(&self) -> bool {
        **self.cell.load()
    }

    /// Relies on `arc_swap::ArcSwapAny::store`: atomically replaces the
    /// flag.
    #[verifier::external_body]
    pub(crate) fn store(&self, v: bool) {
        self.cell.store(Arc::new(v));
    }
}

/// The authoritative value, behind a blocking mutual-exclusion lock shared by
/// all clones of a handle.
#[verifier::external_body]
#[verifier::reject_recursive_types(T)]
pub struct ValueCell<T> {
    cell: Arc<parking_lot::Mutex<T>>,
}

/// Exclusive access to a [`ValueCell`]'s value. While a `ValueGuard` is
/// alive, no other guard can exist for the same cell: whoever holds it is the
/// only writer. The lock is released when the guard is dropped.
#[verifier::external_body]
#[verifier::reject_recursive_types(T)]
pub struct ValueGuard<T> {
    guard: parking_lot::ArcMutexGuard<parking_lot::RawMutex, T>,
}

impl<T: Clone> ValueCell<T> {
    /// Relies on `lock_api::Mutex::new` to store the initial value.
    #[verifier::external_body]
    pub(crate) fn new(v: T) -> Self {
        ValueCell { cell: Arc::new(parking_lot::Mutex::new(v)) }
    }

    /// Relies on `lock_api::Mutex::lock`: blocks until no other lock holder
    /// remains, clones the value out, and releases the lock. The clone is of
    /// whatever value the last writer left.
    #[verifier::external_body]
    pub(crate) fn lockClone(&self) -> T {
        self.cell.lock().clone()
    }

    /// Relies on `lock_api::Mutex::lock_arc`: blocks until no other lock
    /// holder remains, then hands back an owned guard. parking_lot locks do
    /// not poison: a panicking holder simply releases the lock.
    #[verifier::external_body]
    pub(crate) fn lock(&self) -> ValueGuard<T> {
        ValueGuard { guard: self.cell.lock_arc() }
    }
}

impl<T: Clone> ValueGuard<T> {
    /// Relies on `lock_api::ArcMutexGuard`'s `Deref`: reads the guarded
    /// value, cloning it out.
    #[verifier::external_body]
    pub(crate) fn cloneOut(&self) -> T {
        self.guard.clone()
    }

    /// Relies on `lock_api::ArcMutexGuard`'s `DerefMut`: replaces the guarded
    /// value with a clone of `v`, so that the cell holds `v`'s value until
    /// the next writer.
    #[verifier::external_body]
    pub(crate) fn store(&mut self, v: &T) {
        *self.guard = v.clone();
    }
}

} // verus!
