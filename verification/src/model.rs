//! The registry as a mathematical value: which dogs it holds, which
//! identifiers it has given up, and what each operation makes of it.

use vstd::prelude::*;
use crate::dog::{DogView, NewDogView};

verus! {

/// The state of a registry.
///
/// `dogs` maps each identifier in use to its dog. `retired` holds the
/// identifiers of deleted dogs; they are never handed out again.
pub struct RegistryModel {
    pub dogs: Map<Seq<char>, DogView>,
    pub retired: Set<Seq<char>>,
}

impl RegistryModel {
    /// The registry that has never held a dog.
    pub open spec fn empty() -> RegistryModel {
        RegistryModel { dogs: Map::empty(), retired: Set::empty() }
    }

    /// Every dog is filed under its own identifier, no identifier in use is
    /// retired, and the registry is finite.
    pub open spec fn wf(self) -> bool {
        &&& self.dogs.dom().finite()
        &&& self.retired.finite()
        &&& forall|id: Seq<char>| #[trigger]
            self.dogs.contains_key(id) ==> self.dogs[id].id == id
        &&& forall|id: Seq<char>| #[trigger]
            self.dogs.contains_key(id) ==> !self.retired.contains(id)
    }

    /// Whether a dog is filed under `id`.
    pub open spec fn contains(self, id: Seq<char>) -> bool {
        self.dogs.contains_key(id)
    }

    /// Whether `id` is in use or was in use before.
    pub open spec fn issued(self, id: Seq<char>) -> bool {
        self.dogs.contains_key(id) || self.retired.contains(id)
    }

    /// How many dogs the registry holds.
    pub open spec fn len(self) -> nat {
        self.dogs.dom().len()
    }

    /// The dog filed under `id`, if there is one.
    pub open spec fn lookup(self, id: Seq<char>) -> Option<DogView> {
        if self.dogs.contains_key(id) {
            Some(self.dogs[id])
        } else {
            None
        }
    }

    /// The registry after an attempt to file `fields` under `id`: unchanged
    /// if `id` was ever issued, one dog larger if not.
    pub open spec fn insert(self, id: Seq<char>, fields: NewDogView) -> RegistryModel {
        if self.issued(id) {
            self
        } else {
            RegistryModel { dogs: self.dogs.insert(id, fields.with_id(id)), retired: self.retired }
        }
    }

    /// The registry after an attempt to overwrite the dog under `id` with the
    /// fields of `dog`: unchanged if no dog is filed under `id`. The dog that
    /// is stored carries `id`, whatever identifier `dog` came with.
    pub open spec fn replace(self, id: Seq<char>, dog: DogView) -> RegistryModel {
        if self.contains(id) {
            RegistryModel { dogs: self.dogs.insert(id, dog.rekeyed(id)), retired: self.retired }
        } else {
            self
        }
    }

    /// The registry after an attempt to delete the dog under `id`: unchanged
    /// if no dog is filed under `id`; otherwise the dog is gone and `id` is
    /// retired.
    pub open spec fn delete(self, id: Seq<char>) -> RegistryModel {
        if self.contains(id) {
            RegistryModel { dogs: self.dogs.remove(id), retired: self.retired.insert(id) }
        } else {
            self
        }
    }
}

/// One change that a handler may ask of the registry.
pub enum Change {
    /// File these fields under this identifier.
    Insert(Seq<char>, NewDogView),
    /// Overwrite the dog under this identifier with the fields of this dog.
    Replace(Seq<char>, DogView),
    /// Delete the dog under this identifier.
    Delete(Seq<char>),
}

impl Change {
    /// The identifier that the change is about.
    pub open spec fn target(self) -> Seq<char> {
        match self {
            Change::Insert(id, _) => id,
            Change::Replace(id, _) => id,
            Change::Delete(id) => id,
        }
    }

    /// The dog that stands under the target once the change has taken
    /// effect; none after a deletion.
    pub open spec fn files(self) -> Option<DogView> {
        match self {
            Change::Insert(id, fields) => Some(fields.with_id(id)),
            Change::Replace(id, dog) => Some(dog.rekeyed(id)),
            Change::Delete(_) => None,
        }
    }
}

impl RegistryModel {
    /// The registry after one change.
    pub open spec fn apply(self, change: Change) -> RegistryModel {
        match change {
            Change::Insert(id, fields) => self.insert(id, fields),
            Change::Replace(id, dog) => self.replace(id, dog),
            Change::Delete(id) => self.delete(id),
        }
    }

    /// The registry after a run of changes, taken in order. Changes that
    /// several handlers ask for at once reach the registry one at a time, in
    /// the order in which they got the lock, so every history of a shared
    /// store is such a run.
    pub open spec fn run(self, changes: Seq<Change>) -> RegistryModel
        decreases changes.len(),
    {
        if changes.len() == 0 {
            self
        } else {
            self.run(changes.drop_last()).apply(changes.last())
        }
    }
}

} // verus!
