//! The per-handle cache: a snapshot of the shared value together with the
//! revision it was captured at, plus the last observed state of the teardown
//! flag. A cache belongs to exactly one handle clone and is never shared
//! across threads, so its fields are plain data updated through `&mut self`.

use crate::holderShared::HolderShared;
use std::sync::Arc;
use vstd::prelude::*;

verus! {

/// Per-handle cache of the shared value.
pub struct HolderLocal<T: Clone> {
    /// The shared revision this snapshot was captured at.
    pub version: u64,
    /// Cheaply shareable snapshot of the shared value as of `version`.
    pub Data: Arc<T>,
    /// Last observed state of the shared teardown flag.
    pub wantDrop: bool,
}

impl<T: Clone> HolderLocal<T> {
    /// Seed a fresh cache: revision 0 (the shared cell's baseline), the given
    /// snapshot, and no teardown request seen yet.
    pub fn new(data: T) -> (r: Self)
        ensures
            r.version == 0,
            r.Data == data,
            !r.wantDrop,
    {
        HolderLocal { version: 0, Data: Arc::new(data), wantDrop: false }
    }

    /// The staleness test: strictly behind `other`. An equal revision is never
    /// stale, which is what makes the no-copy fast path of a read sound.
    pub fn isOlderThan(&self, other: u64) -> (r: bool)
        ensures
            r == (self.version < other),
    {
        self.version < other
    }

    /// Refresh this cache from the shared cell if it has fallen behind.
    ///
    /// Reads the shared revision; when the cache is strictly older, clones
    /// the shared value and installs value, revision and flag as one unit, so
    /// no reader of this cache can ever see a new revision paired with an old
    /// snapshot. When the observed revision is not newer, nothing is touched:
    /// that is the cheap fast path of every read.
    ///
    /// The revision is read before the value, so when a commit lands between
    /// the two reads the installed snapshot can only be fresher than the
    /// revision recorded for it, never staler; the cache then refreshes once
    /// more on its next read.
    pub fn updateIfOlder(&mut self, shared: &HolderShared<T>)
        ensures
            final(self).version >= old(self).version,
            old(self).wantDrop ==> final(self).wantDrop,
            final(self).version == old(self).version ==> *final(self) == *old(self),
    {
        let v: u64 = shared.loadVersion();
        if self.isOlderThan(v) {
            let data = shared.lockClone();
            let flag = shared.loadWantDrop();
            self.refresh(v, data, flag);
        }
    }

    /// Install one observation of the shared cell: the revision that was
    /// read, the value cloned under the lock, and the teardown flag — as
    /// one unit, exactly. The flag can only rise: an observation never
    /// talks a cache out of a teardown it has already seen.
    pub fn refresh(&mut self, v: u64, data: T, flag: bool)
        ensures
            final(self).version == v,
            final(self).Data == data,
            final(self).wantDrop == (old(self).wantDrop || flag),
    {
        self.version = v;
        self.Data = Arc::new(data);
        self.wantDrop = self.wantDrop || flag;
    }

    /// Unconditionally install a freshly committed value at the given
    /// revision. The teardown flag is not touched: a commit carries no
    /// information about it.
    pub fn commit(&mut self, version: u64, data: T)
        ensures
            final(self).version == version,
            final(self).Data == data,
            final(self).wantDrop == old(self).wantDrop,
    {
        self.version = version;
        self.Data = Arc::new(data);
    }
}

impl<T: Clone> Clone for HolderLocal<T> {
    /// Duplicating a cache copies the revision, the flag, and a shared
    /// reference to the same immutable snapshot.
    fn clone(&self) -> (r: Self)
        ensures
            r == *self,
    {
        HolderLocal { version: self.version, Data: self.Data.clone(), wantDrop: self.wantDrop }
    }
}

} // verus!
