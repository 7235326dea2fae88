//! The registry itself: dogs filed under their identifiers.
//!
//! Dogs are kept in a vector, and a hash map tells for each identifier at
//! which position its dog stands. A lookup, an insertion and a deletion each
//! take one or two hash operations, and a snapshot walks the vector.

use vstd::prelude::*;
use vstd::hash_map::StringHashMap;
use vstd::hash_set::StringHashSet;
use crate::dog::{Dog, NewDog};
use crate::ident::{fresh_id, is_random_id};
use crate::model::RegistryModel;

verus! {

broadcast use vstd::hash_map::group_hash_map_axioms;

/// The identifier `id` was handed to the registry for a new dog, but it is
/// in use or was in use before.
#[derive(Debug)]
pub struct IdCollision {
    pub id: String,
}

/// Dogs, their positions by identifier, and the identifiers given up.
struct Table {
    dogs: Vec<Dog>,
    slots: StringHashMap<usize>,
    retired: StringHashSet,
}

/// The identifiers of `dogs`, in order.
spec fn ids_of(dogs: Seq<Dog>) -> Seq<Seq<char>> {
    Seq::new(dogs.len(), |i: int| dogs[i].id@)
}

impl Table {
    /// `slots` and `dogs` describe each other, and no retired identifier
    /// has a slot.
    spec fn wf(self) -> bool {
        &&& forall|i: int|
            0 <= i < self.dogs@.len() ==> {
                &&& self.slots@.contains_key(#[trigger] self.dogs@[i].id@)
                &&& self.slots@[self.dogs@[i].id@] == i
            }
        &&& forall|id: Seq<char>| #[trigger]
            self.slots@.contains_key(id) ==> {
                &&& self.slots@[id] < self.dogs@.len()
                &&& self.dogs@[self.slots@[id] as int].id@ == id
            }
        &&& forall|id: Seq<char>| #[trigger]
            self.retired@.contains(id) ==> !self.slots@.contains_key(id)
        &&& self.retired@.finite()
    }

    spec fn model(self) -> RegistryModel {
        RegistryModel {
            dogs: Map::new(
                |id: Seq<char>| self.slots@.contains_key(id),
                |id: Seq<char>| self.dogs@[self.slots@[id] as int]@,
            ),
            retired: self.retired@,
        }
    }

    /// A well-formed table stands for a well-formed registry with as many
    /// dogs as the vector holds.
    proof fn lemma_model(self)
        requires
            self.wf(),
        ensures
            self.model().wf(),
            self.model().len() == self.dogs@.len(),
    {
        let ids = ids_of(self.dogs@);
        let dom = self.model().dogs.dom();
        assert(ids.no_duplicates()) by {
            assert forall|i: int, j: int|
                0 <= i < ids.len() && 0 <= j < ids.len() && i != j implies ids[i] != ids[j] by {
                assert(self.slots@[self.dogs@[i].id@] == i);
                assert(self.slots@[self.dogs@[j].id@] == j);
            }
        }
        assert(dom =~= ids.to_set()) by {
            assert forall|id: Seq<char>| dom.contains(id) implies ids.to_set().contains(id) by {
                assert(ids[self.slots@[id] as int] == id);
            }
            assert forall|id: Seq<char>| ids.to_set().contains(id) implies dom.contains(id) by {
                let i = choose|i: int| 0 <= i < ids.len() && ids[i] == id;
                assert(self.slots@.contains_key(self.dogs@[i].id@));
            }
        }
        ids.unique_seq_to_set();
        vstd::seq_lib::seq_to_set_is_finite(ids);
    }

    fn new() -> (table: Table)
        ensures
            table.wf(),
            table.model() == RegistryModel::empty(),
    {
        let table = Table {
            dogs: Vec::new(),
            slots: StringHashMap::new(),
            retired: StringHashSet::new(),
        };
        assert(table.model().dogs =~= Map::empty());
        table
    }

    fn len(&self) -> (n: usize)
        requires
            self.wf(),
        ensures
            n == self.model().len(),
    {
        proof {
            self.lemma_model();
        }
        self.dogs.len()
    }

    fn contains(&self, id: &str) -> (found: bool)
        requires
            self.wf(),
        ensures
            found == self.model().contains(id@),
    {
        self.slots.contains_key(id)
    }

    fn get(&self, id: &str) -> (found: Option<Dog>)
        requires
            self.wf(),
        ensures
            match found {
                Some(dog) => self.model().lookup(id@) == Some(dog@),
                None => self.model().lookup(id@) is None,
            },
    {
        match self.slots.get(id) {
            Some(slot) => Some(self.dogs[*slot].clone()),
            None => None,
        }
    }

    fn list(&self) -> (all: Vec<Dog>)
        requires
            self.wf(),
        ensures
            all@.len() == self.dogs@.len(),
            forall|i: int| 0 <= i < all@.len() ==> (#[trigger] all@[i])@ == self.dogs@[i]@,
    {
        let mut all: Vec<Dog> = Vec::new();
        let mut i: usize = 0;
        while i < self.dogs.len()
            invariant
                i <= self.dogs@.len(),
                all@.len() == i,
                forall|j: int| 0 <= j < i ==> (#[trigger] all@[j])@ == self.dogs@[j]@,
            decreases self.dogs@.len() - i,
        {
            all.push(self.dogs[i].clone());
            i = i + 1;
        }
        all
    }

    fn insert(&mut self, id: String, fields: NewDog) -> (made: Result<Dog, IdCollision>)
        requires
            old(self).wf(),
        ensures
            final(self).wf(),
            final(self).model() == old(self).model().insert(id@, fields@),
            made is Ok <==> !old(self).model().issued(id@),
            made matches Ok(dog) ==> dog@ == fields@.with_id(id@),
            made matches Err(collision) ==> collision.id@ == id@,
    {
        if self.slots.contains_key(id.as_str()) || self.retired.contains(id.as_str()) {
            return Err(IdCollision { id });
        }
        let dog = Dog::from_fields(id, fields);
        let copy = dog.clone();
        let slot = self.dogs.len();
        self.slots.insert(dog.id.clone(), slot);
        self.dogs.push(dog);
        proof {
            assert(final(self).model().dogs =~= old(self).model().dogs.insert(id@, copy@));
        }
        Ok(copy)
    }

    fn replace(&mut self, id: &str, dog: Dog) -> (now: Option<Dog>)
        requires
            old(self).wf(),
        ensures
            final(self).wf(),
            final(self).model() == old(self).model().replace(id@, dog@),
            now is Some <==> old(self).model().contains(id@),
            now matches Some(stored) ==> stored@ == dog@.rekeyed(id@),
    {
        let slot = match self.slots.get(id) {
            Some(slot) => *slot,
            None => {
                return None;
            },
        };
        let stored = Dog { id: self.dogs[slot].id.clone(), breed: dog.breed, name: dog.name };
        let copy = stored.clone();
        self.dogs[slot] = stored;
        proof {
            assert(final(self).model().dogs =~= old(self).model().dogs.insert(id@, copy@));
        }
        Some(copy)
    }

    fn delete(&mut self, id: &str) -> (removed: Option<Dog>)
        requires
            old(self).wf(),
        ensures
            final(self).wf(),
            final(self).model() == old(self).model().delete(id@),
            match removed {
                Some(dog) => old(self).model().lookup(id@) == Some(dog@),
                None => old(self).model().lookup(id@) is None,
            },
    {
        let slot = match self.slots.get(id) {
            Some(slot) => *slot,
            None => {
                return None;
            },
        };
        let last = self.dogs.len() - 1;
        self.slots.remove(id);
        if slot != last {
            self.slots.insert(self.dogs[last].id.clone(), slot);
        }
        let dog = self.dogs.swap_remove(slot);
        self.retired.insert(dog.id.clone());
        proof {
            assert(final(self).model().dogs =~= old(self).model().dogs.remove(id@));
            assert(final(self).model().retired =~= old(self).model().retired.insert(id@));
        }
        Some(dog)
    }
}

/// A registry of dogs, each filed under the identifier it was created with.
///
/// Its value is a [`RegistryModel`]; every operation says what it makes of
/// that value. The registry remembers the identifier of every dog it has
/// deleted, so that no later dog is filed under it: a client that still
/// holds the identifier of a deleted dog never reaches another dog with it.
pub struct DogMap {
    table: Table,
}

impl View for DogMap {
    type V = RegistryModel;

    closed spec fn view(&self) -> RegistryModel {
        self.table.model()
    }
}

impl DogMap {
    #[verifier::type_invariant]
    spec fn inv(self) -> bool {
        self.table.wf()
    }

    /// An empty registry.
    pub fn new() -> (map: DogMap)
        ensures
            map@ == RegistryModel::empty(),
            map@.wf(),
    {
        DogMap { table: Table::new() }
    }

    /// The number of dogs.
    pub fn len(&self) -> (n: usize)
        ensures
            n == self@.len(),
            self@.wf(),
    {
        proof {
            use_type_invariant(&*self);
            self.table.lemma_model();
        }
        self.table.len()
    }

    /// Whether a dog is filed under `id`.
    pub fn contains(&self, id: &str) -> (found: bool)
        ensures
            found == self@.contains(id@),
            self@.wf(),
    {
        proof {
            use_type_invariant(&*self);
            self.table.lemma_model();
        }
        self.table.contains(id)
    }

    /// A copy of the dog filed under `id`.
    pub fn get(&self, id: &str) -> (found: Option<Dog>)
        ensures
            match found {
                Some(dog) => self@.lookup(id@) == Some(dog@),
                None => self@.lookup(id@) is None,
            },
            self@.wf(),
    {
        proof {
            use_type_invariant(&*self);
            self.table.lemma_model();
        }
        self.table.get(id)
    }

    /// A copy of every dog, each exactly once, in no particular order.
    pub fn list(&self) -> (all: Vec<Dog>)
        ensures
            all@.len() == self@.len(),
            forall|i: int|
                0 <= i < all@.len() ==> self@.lookup((#[trigger] all@[i])@.id) == Some(all@[i]@),
            forall|i: int, j: int|
                0 <= i < j < all@.len() ==> (#[trigger] all@[i])@.id != (#[trigger] all@[j])@.id,
            forall|id: Seq<char>|
                self@.contains(id) ==> exists|i: int|
                    0 <= i < all@.len() && (#[trigger] all@[i])@ == self@.dogs[id],
            self@.wf(),
    {
        proof {
            use_type_invariant(&*self);
            self.table.lemma_model();
        }
        let all = self.table.list();
        proof {
            assert forall|id: Seq<char>| self@.contains(id) implies exists|i: int|
                0 <= i < all@.len() && (#[trigger] all@[i])@ == self@.dogs[id] by {
                let slot = self.table.slots@[id] as int;
                assert(all@[slot]@ == self@.dogs[id]);
            }
        }
        all
    }

    /// Files `fields` under `id`, unless `id` is in use or was in use before.
    pub fn insert(&mut self, id: String, fields: NewDog) -> (made: Result<Dog, IdCollision>)
        ensures
            final(self)@ == old(self)@.insert(id@, fields@),
            made is Ok <==> !old(self)@.issued(id@),
            made matches Ok(dog) ==> dog@ == fields@.with_id(id@),
            made matches Err(collision) ==> collision.id@ == id@,
            old(self)@.wf(),
            final(self)@.wf(),
    {
        proof {
            use_type_invariant(&*self);
            self.table.lemma_model();
        }
        let mut table = Table::new();
        std::mem::swap(&mut table, &mut self.table);
        let made = table.insert(id, fields);
        proof {
            table.lemma_model();
        }
        self.table = table;
        made
    }

    /// Files `fields` under a fresh random identifier.
    ///
    /// On success the registry has grown by the dog that is returned. The
    /// attempt fails, and changes nothing, when the identifier drawn is in
    /// use or was in use before; the error says which it was. So a registry
    /// that has issued no identifier of the random shape cannot fail.
    pub fn create(&mut self, fields: NewDog) -> (made: Result<Dog, IdCollision>)
        ensures
            match made {
                Ok(dog) => {
                    &&& is_random_id(dog@.id)
                    &&& !old(self)@.issued(dog@.id)
                    &&& dog@ == fields@.with_id(dog@.id)
                    &&& final(self)@ == old(self)@.insert(dog@.id, fields@)
                },
                Err(collision) => {
                    &&& is_random_id(collision.id@)
                    &&& old(self)@.issued(collision.id@)
                    &&& final(self)@ == old(self)@
                },
            },
            old(self)@.wf(),
            final(self)@.wf(),
    {
        let id = fresh_id();
        self.insert(id, fields)
    }

    /// Overwrites the dog filed under `id` with the breed and name of `dog`,
    /// and returns a copy of what is now stored. Where no dog is filed under
    /// `id` nothing changes. The identifier that `dog` carries is ignored.
    pub fn replace(&mut self, id: &str, dog: Dog) -> (now: Option<Dog>)
        ensures
            final(self)@ == old(self)@.replace(id@, dog@),
            now is Some <==> old(self)@.contains(id@),
            now matches Some(stored) ==> stored@ == dog@.rekeyed(id@),
            old(self)@.wf(),
            final(self)@.wf(),
    {
        proof {
            use_type_invariant(&*self);
            self.table.lemma_model();
        }
        let mut table = Table::new();
        std::mem::swap(&mut table, &mut self.table);
        let now = table.replace(id, dog);
        proof {
            table.lemma_model();
        }
        self.table = table;
        now
    }

    /// Removes the dog filed under `id`, retires the identifier and hands
    /// the dog out. Where no dog is filed under `id` nothing changes.
    pub fn delete(&mut self, id: &str) -> (removed: Option<Dog>)
        ensures
            final(self)@ == old(self)@.delete(id@),
            match removed {
                Some(dog) => old(self)@.lookup(id@) == Some(dog@),
                None => old(self)@.lookup(id@) is None,
            },
            old(self)@.wf(),
            final(self)@.wf(),
    {
        proof {
            use_type_invariant(&*self);
            self.table.lemma_model();
        }
        let mut table = Table::new();
        std::mem::swap(&mut table, &mut self.table);
        let removed = table.delete(id);
        proof {
            table.lemma_model();
        }
        self.table = table;
        removed
    }
}

} // verus!
