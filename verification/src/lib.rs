//! A container that lets many threads share one logical mutable value while
//! each holder keeps a locally cached, read-optimized snapshot that is
//! transparently refreshed when it falls behind the shared revision.
//!
//! Every clone of a [`HArcMut`] handle shares one authoritative
//! [`holderShared::HolderShared`] cell (a lock-protected value plus a
//! monotonically advancing revision counter) and owns a private
//! [`holderLocal::HolderLocal`] cache (a snapshot plus the revision it was
//! captured at). A read compares the two revisions and copies the shared
//! value only when the cache is strictly behind; writers serialize on the
//! shared cell's exclusive lock and commit the new value and revision into
//! their own cache. Teardown is cooperative and polled, not signaled: the
//! one-way `wantDrop` flag rides the same revision mechanism, so a holder
//! learns of it on its next read, and a holder that never reads never does.
//!
//! # Interface amendment: the scoped write commits explicitly
//!
//! The classic shape of a scoped write is a guard that writes back by
//! itself on every exit from its scope, early returns and unwinding
//! included. This crate amends that interface: [`HArcMut::get_mut`] hands
//! out a [`guard::GuardMut`] holding the lock and a working copy, and the
//! write becomes durable only through the explicit, contracted call
//! [`HArcMut::commit`]. A guard that is dropped instead — on any exit
//! path, a panic included — **abandons the write** and releases the lock,
//! provably leaving the handle untouched. The amendment is deliberate: a
//! commit run implicitly by drop glue would be code no contract covers,
//! while the explicit commit carries the exact promise that the cache now
//! serves the committed copy. Callers must not forget the `commit` call;
//! the compiler does not remind them.
#![allow(non_snake_case)]

pub mod cells;
pub mod guard;
pub mod holder;
pub mod holderLocal;
pub mod holderShared;

use crate::guard::GuardMut;
use crate::holderLocal::HolderLocal;
use crate::holderShared::HolderShared;
use std::sync::Arc;
use vstd::prelude::*;

verus! {

/// A shareable handle to one logical mutable value: a shared authoritative
/// cell plus this clone's private, lazily refreshed cache.
#[verifier::reject_recursive_types(T)]
pub struct HArcMut<T: Clone> {
    shared: Arc<HolderShared<T>>,
    local: HolderLocal<T>,
}

impl<T: Clone> HArcMut<T> {
    /// The revision this handle's cache was captured at.
    pub closed spec fn localVersion(&self) -> u64 {
        self.local.version
    }

    /// The snapshot this handle's cache currently serves.
    pub closed spec fn localValue(&self) -> T {
        *self.local.Data
    }

    /// The teardown flag as this handle last observed it.
    pub closed spec fn localWantDrop(&self) -> bool {
        self.local.wantDrop
    }

    /// A fresh handle around `data`: the shared cell and the local cache both
    /// start at revision 0 with that value, and teardown is not requested.
    pub fn new(data: T) -> (r: Self)
        ensures
            r.localVersion() == 0,
            r.localValue() == data,
            !r.localWantDrop(),
    {
        let seed = data.clone();
        HArcMut { shared: Arc::new(HolderShared::new(seed)), local: HolderLocal::new(data) }
    }

    /// Read the value: refresh the cache if it is behind the shared
    /// revision, then serve the cached snapshot without copying it.
    ///
    /// When the observed shared revision equals the cached one, the handle
    /// is left exactly as it was: repeated reads with no intervening commit
    /// serve the same snapshot.
    pub fn get(&mut self) -> (r: &T)
        ensures
            r == final(self).localValue(),
            final(self).localVersion() >= old(self).localVersion(),
            old(self).localWantDrop() ==> final(self).localWantDrop(),
            final(self).localVersion() == old(self).localVersion() ==> *final(self) == *old(
                self,
            ),
    {
        self.local.updateIfOlder(&self.shared);
        &*self.local.Data
    }

    /// Open a scoped write: block until the shared cell's exclusive lock is
    /// free, then hand back a guard holding that lock and a working copy of
    /// the current shared value. Pass the guard to [`Self::commit`] on the
    /// same handle to make the write durable; dropping it abandons the
    /// write.
    pub fn get_mut(&self) -> GuardMut<T> {
        let inner = self.shared.lock();
        let value = inner.cloneOut();
        GuardMut { inner, value }
    }

    /// Close a scoped write: store the guard's working copy into the shared
    /// cell, advance the shared revision, install the copy and the new
    /// revision into this handle's cache, and release the lock. The commit
    /// is unconditional, whether or not the copy was changed.
    pub fn commit(&mut self, g: GuardMut<T>)
        ensures
            final(self).localValue() == g.value,
            final(self).localWantDrop() == old(self).localWantDrop(),
    {
        let GuardMut { mut inner, value } = g;
        inner.store(&value);
        let ver: u64 = self.shared.updateVersion();
        self.local.commit(ver, value);
    }

    /// Run a one-shot mutation under the exclusive lock and commit it
    /// unconditionally: the closure maps the current shared value to the new
    /// one, which is stored, given a fresh revision, and installed into this
    /// handle's cache.
    ///
    /// The closure must accept whatever value the last writer left, so its
    /// precondition may not restrict its input.
    pub fn update<F: FnOnce(T) -> T>(&mut self, f: F)
        requires
            forall|v: T| #[trigger] call_requires(f, (v,)),
        ensures
            updateStep(*old(self), *final(self), f),
    {
        let mut g = self.shared.lock();
        let prev = g.cloneOut();
        let ghost prevSeen = prev;
        let newv = f(prev);
        let ghost committed = newv;
        g.store(&newv);
        let ver: u64 = self.shared.updateVersion();
        self.local.commit(ver, newv);
        proof {
            // the value handed to f is the witness for the exists in updateStep
            assert(self.localValue() == committed);
            assert(call_ensures(f, (prevSeen,), self.localValue()));
        }
    }

    /// Run a one-shot mutation under the exclusive lock and commit it only
    /// when the closure reports a real change: the closure maps the current
    /// shared value to a candidate and a flag. With the flag set the
    /// candidate is committed exactly as in [`Self::update`]; without it the
    /// candidate is discarded and shared cell, revision and cache all stay
    /// exactly as they were — the cheap no-op path.
    ///
    /// The closure returns its candidate by value, so a "no change" report
    /// cannot leave a half-made change behind in the shared cell.
    pub fn updateIf<F: FnOnce(T) -> (T, bool)>(&mut self, f: F)
        requires
            forall|v: T| #[trigger] call_requires(f, (v,)),
        ensures
            updateIfStep(*old(self), *final(self), f),
    {
        let mut g = self.shared.lock();
        let prev = g.cloneOut();
        let (newv, changed) = f(prev);
        if changed {
            g.store(&newv);
            let ver: u64 = self.shared.updateVersion();
            self.local.commit(ver, newv);
        }
    }

    /// Report whether some holder has requested teardown, as seen from this
    /// handle: the cache is refreshed exactly as for a read, then the
    /// locally observed flag is returned. Detection is purely by polling,
    /// and once this handle has observed `true` it never reports `false`
    /// again.
    pub fn isWantDrop(&mut self) -> (r: bool)
        ensures
            r == final(self).localWantDrop(),
            old(self).localWantDrop() ==> r,
            final(self).localVersion() >= old(self).localVersion(),
    {
        self.local.updateIfOlder(&self.shared);
        self.local.wantDrop
    }

    /// Request teardown: raise the shared one-way flag and advance the
    /// shared revision under the exclusive lock, so the flag change rides
    /// the same staleness wave as a value commit and every holder picks it
    /// up on its next read. The caller's own cache learns of it the same
    /// way, on its next read.
    pub fn setDrop(&self) {
        let _guard = self.shared.lock();
        self.shared.setWantDrop();
        let _newRevision: u64 = self.shared.updateVersion();
    }
}

/// What one unconditional mutation leaves behind, seen from the calling
/// handle: its cache now serves the closure's output for the value the
/// closure was given under the lock, and the locally observed teardown flag
/// is untouched.
pub open spec fn updateStep<T: Clone, F: FnOnce(T) -> T>(
    pre: HArcMut<T>,
    post: HArcMut<T>,
    f: F,
) -> bool {
    &&& exists|prev: T| call_ensures(f, (prev,), post.localValue())
    &&& post.localWantDrop() == pre.localWantDrop()
}

/// What one conditional mutation leaves behind, seen from the calling
/// handle: for the value the closure was given under the lock, either it
/// reported a change and its candidate is now the cache's snapshot, or it
/// reported none and the handle is exactly as it was.
pub open spec fn updateIfStep<T: Clone, F: FnOnce(T) -> (T, bool)>(
    pre: HArcMut<T>,
    post: HArcMut<T>,
    f: F,
) -> bool {
    exists|prev: T, out: (T, bool)|
        {
            &&& #[trigger] call_ensures(f, (prev,), out)
            &&& out.1 ==> post.localValue() == out.0 && post.localWantDrop() == pre.localWantDrop()
            &&& !out.1 ==> post == pre
        }
}

/// Law: a mutation through a closure that yields `y` for every input pins
/// the calling handle's snapshot to exactly `y` — a subsequent read on the
/// same handle serves `y`, whatever value the closure found in the shared
/// cell.
pub proof fn lemma_update_pins_value<T: Clone, F: FnOnce(T) -> T>(
    pre: HArcMut<T>,
    post: HArcMut<T>,
    f: F,
    y: T,
)
    requires
        updateStep(pre, post, f),
        forall|prev: T, out: T| #[trigger] call_ensures(f, (prev,), out) ==> out == y,
    ensures
        post.localValue() == y,
{
}

/// Law: a conditional mutation whose closure reports "no change" for every
/// input leaves the handle exactly as it was — same snapshot, same
/// revision, same observed teardown flag.
pub proof fn lemma_conditional_noop<T: Clone, F: FnOnce(T) -> (T, bool)>(
    pre: HArcMut<T>,
    post: HArcMut<T>,
    f: F,
)
    requires
        updateIfStep(pre, post, f),
        forall|prev: T, out: (T, bool)| #[trigger] call_ensures(f, (prev,), out) ==> !out.1,
    ensures
        post == pre,
{
}

/// Law: the locally observed teardown flag is one-way. Each operation's
/// contract keeps an observed `true` true (`get`, `isWantDrop`, `update`,
/// `updateIf`, `commit`, `clone` all say so of the handle they touch); this
/// chains those single steps: over any sequence of handle states in which
/// every step preserves an observed `true`, a handle that has once observed
/// the request never reports it absent again.
pub proof fn lemma_teardown_oneway<T: Clone>(states: Seq<HArcMut<T>>)
    requires
        states.len() > 0,
        states[0].localWantDrop(),
        forall|i: int| #![trigger states[i]]
            0 <= i < states.len() - 1 ==> (states[i].localWantDrop() ==> states[
                i + 1
            ].localWantDrop()),
    ensures
        states.last().localWantDrop(),
    decreases states.len(),
{
    if states.len() > 1 {
        let rest = states.subrange(1, states.len() as int);
        assert(states[0].localWantDrop() ==> states[1].localWantDrop());
        assert(rest[0] == states[1]);
        assert forall|i: int| #![trigger rest[i]]
            0 <= i < rest.len() - 1 implies (rest[i].localWantDrop() ==> rest[
            i + 1
        ].localWantDrop()) by {
            assert(rest[i] == states[i + 1]);
            assert(rest[i + 1] == states[i + 2]);
        }
        lemma_teardown_oneway(rest);
        assert(states.last() == rest.last());
    }
}

impl<T: Clone> Clone for HArcMut<T> {
    /// A clone shares the same authoritative cell but owns an independent
    /// cache, seeded with this handle's current snapshot, revision and
    /// observed flag.
    fn clone(&self) -> (r: Self)
        ensures
            r.localVersion() == self.localVersion(),
            r.localValue() == self.localValue(),
            r.localWantDrop() == self.localWantDrop(),
    {
        HArcMut { shared: self.shared.clone(), local: self.local.clone() }
    }
}

} // verus!
