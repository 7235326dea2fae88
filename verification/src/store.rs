//! The registry as request handlers share it: one `DogMap` behind one
//! reader-writer lock.
//!
//! Reads take the lock in shared mode, changes take it alone, and each holds
//! it for one operation on the map and no longer. What a handler gets back
//! is always a copy. Between two calls another handler may change the
//! registry, so a contract here says what holds of every answer; what an
//! operation does to a registry is said, exactly, in `DogMap`.
//!
//! One thing holds of the registry at every moment: the store files dogs
//! under identifiers that it drew itself, and under no others. So an
//! identifier of any other shape never finds a dog, and the contracts say
//! so.

use vstd::prelude::*;
use crate::dog::{Dog, NewDog};
use crate::drawn::DrawnMap;
use crate::ident::{fresh_id, is_random_id};
use crate::lock::{exclusive, made_around, new_lock, read_lock, shared, write_lock};
use crate::model::RegistryModel;
use crate::registry::IdCollision;

verus! {

/// A registry that any number of threads may use at once.
pub struct DogStore {
    lock: parking_lot::RwLock<DrawnMap>,
}

impl DogStore {
    /// The registry that the store started out with, before any thread used
    /// it.
    pub closed spec fn initial(&self) -> RegistryModel {
        made_around(self.lock)
    }

    /// A store that starts out with no dog, and with no identifier issued.
    pub fn new() -> (store: DogStore)
        ensures
            store.initial() == RegistryModel::empty(),
    {
        DogStore { lock: new_lock(DrawnMap::new()) }
    }

    /// A copy of every dog as of one moment: no dog twice, each under an
    /// identifier that the store drew.
    pub fn list(&self) -> (all: Vec<Dog>)
        ensures
            forall|i: int, j: int|
                0 <= i < j < all@.len() ==> (#[trigger] all@[i])@.id != (#[trigger] all@[j])@.id,
            forall|i: int| 0 <= i < all@.len() ==> is_random_id((#[trigger] all@[i])@.id),
    {
        let guard = read_lock(&self.lock);
        shared(&guard).map().list()
    }

    /// A copy of the dog filed under `id`, if there is one at that moment.
    /// There is none at any moment if `id` is not of the shape that the
    /// store draws.
    pub fn get(&self, id: &str) -> (found: Option<Dog>)
        ensures
            found matches Some(dog) ==> dog@.id == id@,
            !is_random_id(id@) ==> found is None,
    {
        let guard = read_lock(&self.lock);
        shared(&guard).map().get(id)
    }

    /// Files `fields` under a fresh random identifier and returns a copy of
    /// the new dog. Fails, and changes nothing, when the identifier drawn is
    /// in use or was in use before.
    ///
    /// The identifier is drawn before the lock is taken.
    pub fn create(&self, fields: NewDog) -> (made: Result<Dog, IdCollision>)
        ensures
            match made {
                Ok(dog) => is_random_id(dog@.id) && dog@ == fields@.with_id(dog@.id),
                Err(collision) => is_random_id(collision.id@),
            },
    {
        let id = fresh_id();
        let mut guard = write_lock(&self.lock);
        exclusive(&mut guard).insert(id, fields)
    }

    /// Overwrites the dog filed under `id` with the breed and name of `dog`
    /// and returns a copy of what is now stored; `None`, and no change, if
    /// no dog is filed under `id` at that moment. There is none at any
    /// moment if `id` is not of the shape that the store draws.
    pub fn replace(&self, id: &str, dog: Dog) -> (now: Option<Dog>)
        ensures
            now matches Some(stored) ==> stored@ == dog@.rekeyed(id@),
            !is_random_id(id@) ==> now is None,
    {
        let mut guard = write_lock(&self.lock);
        exclusive(&mut guard).replace(id, dog)
    }

    /// Removes the dog filed under `id` and hands it out; `None`, and no
    /// change, if no dog is filed under `id` at that moment. There is none
    /// at any moment if `id` is not of the shape that the store draws.
    pub fn delete(&self, id: &str) -> (removed: Option<Dog>)
        ensures
            removed matches Some(dog) ==> dog@.id == id@,
            !is_random_id(id@) ==> removed is None,
    {
        let mut guard = write_lock(&self.lock);
        exclusive(&mut guard).delete(id)
    }
}

} // verus!
