#![allow(non_snake_case)]

use harcmut::holder;
use harcmut::holderLocal::HolderLocal;
use harcmut::holderShared::{nextVersion, HolderShared};
use harcmut::HArcMut;

#[test]
fn update() {
    let testdefault = 42;
    let mut ham = HArcMut::new(testdefault);
    {
        // scoped write: edit the guard's working copy, then hand it back
        let mut value = ham.get_mut();
        value.value = 43;
        ham.commit(value);
    }
    assert_eq!(*ham.get(), 43);
}

#[test]
fn updateClosure() {
    let mut ham = HArcMut::new(42);
    ham.update(|_v| 43);
    assert_eq!(*ham.get(), 43);
}

#[test]
fn conditionalNoop() {
    let mut ham = HArcMut::new(42);
    ham.updateIf(|v| (v, false));
    assert_eq!(*ham.get(), 42);
}

#[test]
fn conditionalCommit() {
    let mut ham = HArcMut::new(42);
    ham.updateIf(|v| (v + 1, true));
    assert_eq!(*ham.get(), 43);
}

#[test]
fn guardAbandon() {
    let mut ham = HArcMut::new(42);
    {
        let mut value = ham.get_mut();
        value.value = 99;
        // dropped without commit: the write is abandoned, the lock released
    }
    assert_eq!(*ham.get(), 42);
    // the lock can be taken again
    let mut value = ham.get_mut();
    value.value = 43;
    ham.commit(value);
    assert_eq!(*ham.get(), 43);
}

#[test]
fn cloneConvergence() {
    let mut ham = HArcMut::new(42);
    let mut ham2 = ham.clone();
    assert_eq!(*ham2.get(), 42);
    ham.update(|v| v + 1);
    // the clone picks the commit up on its own next read
    assert_eq!(*ham2.get(), 43);
    assert_eq!(*ham.get(), 43);
}

#[test]
fn serializedIncrements() {
    let mut ham = HArcMut::new(0);
    for _ in 0..10 {
        let mut worker = ham.clone();
        worker.update(|v| v + 1);
    }
    assert_eq!(*ham.get(), 10);
}

#[test]
fn teardownVisibility() {
    let mut ham = HArcMut::new(42);
    let ham2 = ham.clone();
    assert!(!ham.isWantDrop());
    ham2.setDrop();
    // observed after the next staleness-triggered refresh, from any clone
    assert!(ham.isWantDrop());
    // monotonic: never observed as false again
    assert!(ham.isWantDrop());
    // a cache duplicated from an informed handle is informed too
    let mut ham3 = ham.clone();
    assert!(ham3.isWantDrop());
}

#[test]
fn readIdempotent() {
    let mut ham = HArcMut::new(42);
    let first = *ham.get();
    let second = *ham.get();
    assert_eq!(first, second);
    ham.updateIf(|v| (v, false));
    assert_eq!(*ham.get(), first);
}

#[test]
fn versionCounter() {
    let shared = HolderShared::new(5u32);
    assert_eq!(shared.loadVersion(), 0);
    assert_eq!(shared.updateVersion(), 1);
    assert_eq!(shared.updateVersion(), 2);
    assert_eq!(shared.loadVersion(), 2);
}

#[test]
fn localCacheRefresh() {
    let shared = HolderShared::new(10u32);
    let mut local = HolderLocal::new(55u32);
    // not stale: the shared revision still equals the cache's
    assert!(!local.isOlderThan(shared.loadVersion()));
    local.updateIfOlder(&shared);
    assert_eq!(*local.Data, 55);
    // a commit advances the shared revision; the cache is now stale
    shared.updateVersion();
    assert!(local.isOlderThan(shared.loadVersion()));
    local.updateIfOlder(&shared);
    assert_eq!(*local.Data, 10);
    assert_eq!(local.version, 1);
    assert!(!local.wantDrop);
}

#[test]
fn nextVersionSteps() {
    assert_eq!(nextVersion(0), 1);
    assert_eq!(nextVersion(41), 42);
    assert_eq!(nextVersion(u64::MAX), 0);
}

#[test]
fn localCacheInstall() {
    let mut local = HolderLocal::new(3u32);
    local.refresh(5, 6u32, false);
    assert_eq!(local.version, 5);
    assert_eq!(*local.Data, 6);
    assert!(!local.wantDrop);
    // an observation raises the flag and never lowers it
    local.refresh(6, 7u32, true);
    assert!(local.wantDrop);
    local.refresh(7, 8u32, false);
    assert!(local.wantDrop);

    let mut stamped = holder::HolderLocal::new(4u32);
    stamped.refresh(9, 10u32);
    assert_eq!(stamped.TimeUpdate, 9);
    assert_eq!(*stamped.Data, 10);
}

#[test]
fn localCacheCommit() {
    let mut local = HolderLocal::new(1u32);
    local.commit(7, 8u32);
    assert_eq!(local.version, 7);
    assert_eq!(*local.Data, 8);
    let copy = local.clone();
    assert_eq!(copy.version, 7);
    assert_eq!(*copy.Data, 8);
}

#[test]
fn timestampHolder() {
    let shared = holder::HolderShared::new(3u32);
    let mut local = holder::HolderLocal::new(4u32);
    assert_eq!(*local.Data, 4);
    // a stamp strictly in this cache's past marks it stale
    local.TimeUpdate = 0;
    let now = holder::getTime();
    assert!(now > 0);
    assert!(local.isOlderThan(shared.loadTime()));
    local.updateIfOlder(&shared);
    assert_eq!(*local.Data, 3);
    assert_eq!(local.TimeUpdate, shared.loadTime());
    // equal stamps are never stale
    assert!(!local.isOlderThan(local.TimeUpdate));
}

#[test]
fn timestampRestamp() {
    let shared = holder::HolderShared::new(1u32);
    let stamp = shared.updateTime();
    assert_eq!(shared.loadTime(), stamp);
}
