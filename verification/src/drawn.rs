//! The registry as the store keeps it: a `DogMap` in which every dog stands
//! under an identifier that the store drew itself.
//!
//! The store files a dog only under an identifier from `fresh_id`, so no
//! client can make it hold a dog under a text of its own choosing. That is
//! the type invariant here, and it is why a lookup with any other text finds
//! nothing, whatever other threads have done to the registry.

use vstd::prelude::*;
use crate::dog::{Dog, NewDog};
use crate::ident::is_random_id;
use crate::model::RegistryModel;
use crate::registry::{DogMap, IdCollision};

verus! {

/// Whether every dog of `registry` stands under an identifier of the random
/// shape.
pub open spec fn all_drawn(registry: RegistryModel) -> bool {
    forall|id: Seq<char>| #[trigger] registry.dogs.contains_key(id) ==> is_random_id(id)
}

/// A registry whose identifiers in use are all of the random shape.
pub struct DrawnMap {
    map: DogMap,
}

impl View for DrawnMap {
    type V = RegistryModel;

    closed spec fn view(&self) -> RegistryModel {
        self.map@
    }
}

impl DrawnMap {
    #[verifier::type_invariant]
    spec fn inv(self) -> bool {
        all_drawn(self.map@)
    }

    /// An empty registry.
    pub fn new() -> (drawn: DrawnMap)
        ensures
            drawn@ == RegistryModel::empty(),
    {
        DrawnMap { map: DogMap::new() }
    }

    /// The registry, to read.
    pub fn map(&self) -> (map: &DogMap)
        ensures
            map@ == self@,
            all_drawn(self@),
    {
        proof {
            use_type_invariant(&*self);
        }
        &self.map
    }

    /// Files `fields` under the drawn identifier `id`, as `DogMap::insert`
    /// does.
    pub fn insert(&mut self, id: String, fields: NewDog) -> (made: Result<Dog, IdCollision>)
        requires
            is_random_id(id@),
        ensures
            final(self)@ == old(self)@.insert(id@, fields@),
            made is Ok <==> !old(self)@.issued(id@),
            made matches Ok(dog) ==> dog@ == fields@.with_id(id@),
            made matches Err(collision) ==> collision.id@ == id@,
            old(self)@.wf(),
            final(self)@.wf(),
            all_drawn(old(self)@),
            all_drawn(final(self)@),
    {
        proof {
            use_type_invariant(&*self);
        }
        let mut map = DogMap::new();
        std::mem::swap(&mut map, &mut self.map);
        let made = map.insert(id, fields);
        self.map = map;
        made
    }

    /// Overwrites the dog under `id`, as `DogMap::replace` does.
    pub fn replace(&mut self, id: &str, dog: Dog) -> (now: Option<Dog>)
        ensures
            final(self)@ == old(self)@.replace(id@, dog@),
            now is Some <==> old(self)@.contains(id@),
            now matches Some(stored) ==> stored@ == dog@.rekeyed(id@),
            old(self)@.wf(),
            final(self)@.wf(),
            all_drawn(old(self)@),
            all_drawn(final(self)@),
    {
        proof {
            use_type_invariant(&*self);
        }
        let mut map = DogMap::new();
        std::mem::swap(&mut map, &mut self.map);
        let now = map.replace(id, dog);
        self.map = map;
        now
    }

    /// Removes the dog under `id`, as `DogMap::delete` does.
    pub fn delete(&mut self, id: &str) -> (removed: Option<Dog>)
        ensures
            final(self)@ == old(self)@.delete(id@),
            match removed {
                Some(dog) => old(self)@.lookup(id@) == Some(dog@),
                None => old(self)@.lookup(id@) is None,
            },
            old(self)@.wf(),
            final(self)@.wf(),
            all_drawn(old(self)@),
            all_drawn(final(self)@),
    {
        proof {
            use_type_invariant(&*self);
        }
        let mut map = DogMap::new();
        std::mem::swap(&mut map, &mut self.map);
        let removed = map.delete(id);
        self.map = map;
        removed
    }
}

} // verus!
