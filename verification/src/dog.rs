//! The records that the registry keeps, and what a client sends to create one.

use vstd::prelude::*;

verus! {

/// A dog as the registry stores and returns it.
#[derive(Debug)]
pub struct Dog {
    pub id: String,
    pub breed: String,
    pub name: String,
}

/// The fields of a dog that has no identifier yet.
#[derive(Debug)]
pub struct NewDog {
    pub breed: String,
    pub name: String,
}

/// What a `Dog` is: its three texts.
pub struct DogView {
    pub id: Seq<char>,
    pub breed: Seq<char>,
    pub name: Seq<char>,
}

/// What a `NewDog` is: its two texts.
pub struct NewDogView {
    pub breed: Seq<char>,
    pub name: Seq<char>,
}

impl View for Dog {
    type V = DogView;

    open spec fn view(&self) -> DogView {
        DogView { id: self.id@, breed: self.breed@, name: self.name@ }
    }
}

impl View for NewDog {
    type V = NewDogView;

    open spec fn view(&self) -> NewDogView {
        NewDogView { breed: self.breed@, name: self.name@ }
    }
}

impl NewDogView {
    /// The dog that these fields make under the identifier `id`.
    pub open spec fn with_id(self, id: Seq<char>) -> DogView {
        DogView { id, breed: self.breed, name: self.name }
    }
}

impl DogView {
    /// The fields of this dog without its identifier.
    pub open spec fn fields(self) -> NewDogView {
        NewDogView { breed: self.breed, name: self.name }
    }

    /// This dog filed under the identifier `id`.
    pub open spec fn rekeyed(self, id: Seq<char>) -> DogView {
        DogView { id, breed: self.breed, name: self.name }
    }
}

impl Clone for Dog {
    fn clone(&self) -> (copy: Dog)
        ensures
            copy@ == self@,
    {
        Dog { id: self.id.clone(), breed: self.breed.clone(), name: self.name.clone() }
    }
}

impl Clone for NewDog {
    fn clone(&self) -> (copy: NewDog)
        ensures
            copy@ == self@,
    {
        NewDog { breed: self.breed.clone(), name: self.name.clone() }
    }
}

impl Dog {
    /// Builds a dog from an identifier and the fields a client sent.
    pub fn from_fields(id: String, fields: NewDog) -> (dog: Dog)
        ensures
            dog@ == fields@.with_id(id@),
    {
        Dog { id, breed: fields.breed, name: fields.name }
    }

    /// The fields of this dog without its identifier.
    pub fn fields(&self) -> (fields: NewDog)
        ensures
            fields@ == self@.fields(),
    {
        NewDog { breed: self.breed.clone(), name: self.name.clone() }
    }
}

} // verus!
