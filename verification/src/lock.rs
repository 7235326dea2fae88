//! The reader-writer lock that guards the shared registry.
//!
//! Nothing in this file is proved: it declares the lock of `parking_lot` and
//! wraps the five calls that the store makes. The one claim made is what a
//! new lock was made around. No contract here says what a guard gives access
//! to, because another thread may have changed the registry since it was
//! last seen. That the registry behind a guard is well-formed, and holds
//! dogs under drawn identifiers only, needs no word from the lock: these are
//! the type invariants of `DogMap` and `DrawnMap`, which every operation on
//! them keeps.

use vstd::prelude::*;
use crate::drawn::DrawnMap;
use crate::model::RegistryModel;

verus! {

/// `parking_lot::RawRwLock`, the state of the lock.
#[verifier::external_type_specification]
#[verifier::external_body]
pub struct ExRawRwLock(parking_lot::RawRwLock);

/// `lock_api::RwLock`, of which `parking_lot::RwLock` is an instance.
#[verifier::external_type_specification]
#[verifier::external_body]
#[verifier::reject_recursive_types(R)]
#[verifier::reject_recursive_types(T)]
pub struct ExRwLock<R, T: ?Sized>(parking_lot::lock_api::RwLock<R, T>);

/// Shared access to the registry, held until the value is dropped.
///
/// Holds a `parking_lot::RwLockReadGuard`. The guard's type is bounded by a
/// trait of `lock_api`, so it cannot be declared to the verifier and is kept
/// out of its sight here.
#[verifier::external_body]
pub struct ReadGuard<'a> {
    guard: parking_lot::RwLockReadGuard<'a, DrawnMap>,
}

/// Exclusive access to the registry, held until the value is dropped.
///
/// Holds a `parking_lot::RwLockWriteGuard`, for the reason given at
/// [`ReadGuard`].
#[verifier::external_body]
pub struct WriteGuard<'a> {
    guard: parking_lot::RwLockWriteGuard<'a, DrawnMap>,
}

/// The registry that a lock was made around: what it held before any thread
/// took it. It is a fact about the lock's making and does not follow what
/// the lock holds later.
pub uninterp spec fn made_around(lock: parking_lot::RwLock<DrawnMap>) -> RegistryModel;

/// Calls `parking_lot::RwLock::new`: an unlocked lock around `map`.
/// Trusted. The contract claims that the lock was made around the registry
/// that `map` stands for, as `RwLock::new` stores its argument; it claims
/// nothing of what the lock holds once it is shared.
#[verifier::external_body]
pub(crate) fn new_lock(map: DrawnMap) -> (lock: parking_lot::RwLock<DrawnMap>)
    ensures
        made_around(lock) == map@,
{
    parking_lot::RwLock::new(map)
}

/// Calls `RwLock::read`: waits until no writer holds the lock, then shares
/// it with other readers. Trusted, and nothing is claimed of the guard. A
/// thread that holds a guard of this lock must not call it: it might wait
/// for itself. The store drops every guard before it returns.
#[verifier::external_body]
pub(crate) fn read_lock<'a>(lock: &'a parking_lot::RwLock<DrawnMap>) -> ReadGuard<'a> {
    ReadGuard { guard: lock.read() }
}

/// Calls `RwLock::write`: waits until nobody holds the lock, then holds it
/// alone. Trusted, and nothing is claimed of the guard. A thread that holds
/// a guard of this lock must not call it: it would wait for itself.
#[verifier::external_body]
pub(crate) fn write_lock<'a>(lock: &'a parking_lot::RwLock<DrawnMap>) -> WriteGuard<'a> {
    WriteGuard { guard: lock.write() }
}

/// Calls `Deref::deref` of the read guard: the registry behind the lock.
/// Trusted, and nothing is claimed of the registry.
#[verifier::external_body]
pub(crate) fn shared<'a, 'b>(guard: &'b ReadGuard<'a>) -> &'b DrawnMap {
    &*guard.guard
}

/// Calls `DerefMut::deref_mut` of the write guard: the registry behind the
/// lock, open to change. Trusted, and nothing is claimed of the registry
/// before or after.
#[verifier::external_body]
pub(crate) fn exclusive<'a, 'b>(guard: &'b mut WriteGuard<'a>) -> &'b mut DrawnMap {
    &mut *guard.guard
}

} // verus!
