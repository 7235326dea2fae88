//! The gateway between a transport and the store.
//!
//! A transport decodes a request, calls the one method here that answers it,
//! and encodes the outcome. The gateway checks a body before the store sees
//! it, calls the store once, and turns the store's answer into exactly one
//! outcome; it keeps no state of its own.

use vstd::prelude::*;
use crate::dog::{Dog, NewDog, NewDogView};
use crate::ident::is_random_id;
use crate::registry::IdCollision;
use crate::store::DogStore;

verus! {

/// Why a body was turned away before the store was asked.
#[derive(Debug, Clone, Copy, PartialEq, Eq, Structural)]
pub enum ValidationError {
    /// The transport could not read the body as a record at all.
    Malformed,
    /// The body names no breed.
    MissingBreed,
    /// The body names a breed but no name.
    MissingName,
}

/// The body of a create or replace request as the transport decoded it:
/// each field is there or not.
#[derive(Debug)]
pub struct DogBody {
    pub id: Option<String>,
    pub breed: Option<String>,
    pub name: Option<String>,
}

/// What a `DogBody` is: its texts, where they are present.
pub struct DogBodyView {
    pub id: Option<Seq<char>>,
    pub breed: Option<Seq<char>>,
    pub name: Option<Seq<char>>,
}

/// The text of `field`, if it is present.
pub open spec fn text_of(field: Option<String>) -> Option<Seq<char>> {
    match field {
        Some(text) => Some(text@),
        None => None,
    }
}

impl View for DogBody {
    type V = DogBodyView;

    open spec fn view(&self) -> DogBodyView {
        DogBodyView { id: text_of(self.id), breed: text_of(self.breed), name: text_of(self.name) }
    }
}

impl DogBodyView {
    /// The breed and the name if both are present; else the first of them
    /// that is missing. An identifier in the body plays no part.
    pub open spec fn checked(self) -> Result<NewDogView, ValidationError> {
        match (self.breed, self.name) {
            (Some(breed), Some(name)) => Ok(NewDogView { breed, name }),
            (None, _) => Err(ValidationError::MissingBreed),
            (Some(_), None) => Err(ValidationError::MissingName),
        }
    }
}

impl DogBody {
    /// Checks that the required fields are present and hands them out.
    pub fn validate(self) -> (checked: Result<NewDog, ValidationError>)
        ensures
            match checked {
                Ok(fields) => self@.checked() == Ok::<NewDogView, ValidationError>(fields@),
                Err(error) => self@.checked() == Err::<NewDogView, ValidationError>(error),
            },
    {
        match self.breed {
            None => Err(ValidationError::MissingBreed),
            Some(breed) => match self.name {
                None => Err(ValidationError::MissingName),
                Some(name) => Ok(NewDog { breed, name }),
            },
        }
    }
}

/// The answer to one request.
#[derive(Debug)]
pub enum Outcome {
    /// Success, with every dog as the payload.
    Many(Vec<Dog>),
    /// Success, with one dog as the payload.
    One(Dog),
    /// Success, a dog was created; it is the payload.
    Created(Dog),
    /// Success, with nothing to send.
    Empty,
    /// No dog is filed under the identifier that the request names.
    NotFound,
    /// The body was turned away; the store was not asked.
    Invalid(ValidationError),
    /// The identifier drawn for a new dog was already issued; the request
    /// failed and the store is as it was.
    Collision,
}

impl Outcome {
    /// The status code that stands for each outcome.
    pub open spec fn code(self) -> u16 {
        match self {
            Outcome::Many(_) => 200,
            Outcome::One(_) => 200,
            Outcome::Created(_) => 201,
            Outcome::Empty => 200,
            Outcome::NotFound => 404,
            Outcome::Invalid(_) => 400,
            Outcome::Collision => 500,
        }
    }

    /// The status code that a transport sends for this outcome.
    pub fn status(&self) -> (code: u16)
        ensures
            code == self.code(),
    {
        match self {
            Outcome::Many(_) => 200,
            Outcome::One(_) => 200,
            Outcome::Created(_) => 201,
            Outcome::Empty => 200,
            Outcome::NotFound => 404,
            Outcome::Invalid(_) => 400,
            Outcome::Collision => 500,
        }
    }

    /// Whether the request did what it asked for.
    pub fn is_success(&self) -> (yes: bool)
        ensures
            yes == (200 <= self.code() < 300),
    {
        match self {
            Outcome::Many(_) | Outcome::One(_) | Outcome::Created(_) | Outcome::Empty => true,
            _ => false,
        }
    }

    /// The outcome of listing: success with all dogs, also when there are
    /// none.
    pub fn listed(all: Vec<Dog>) -> (outcome: Outcome)
        ensures
            outcome == Outcome::Many(all),
    {
        Outcome::Many(all)
    }

    /// The outcome of a lookup or a replacement: the dog if the store had
    /// one to give, not-found if it had none.
    pub fn found(answer: Option<Dog>) -> (outcome: Outcome)
        ensures
            outcome == match answer {
                Some(dog) => Outcome::One(dog),
                None => Outcome::NotFound,
            },
    {
        match answer {
            Some(dog) => Outcome::One(dog),
            None => Outcome::NotFound,
        }
    }

    /// The outcome of a creation: the new dog, marked as created, or the
    /// collision that stopped it.
    pub fn created(answer: Result<Dog, IdCollision>) -> (outcome: Outcome)
        ensures
            outcome == match answer {
                Ok(dog) => Outcome::Created(dog),
                Err(_) => Outcome::Collision,
            },
    {
        match answer {
            Ok(dog) => Outcome::Created(dog),
            Err(_) => Outcome::Collision,
        }
    }

    /// The outcome of a deletion: success with nothing to send if a dog was
    /// removed, not-found if there was none.
    pub fn deleted(answer: Option<Dog>) -> (outcome: Outcome)
        ensures
            outcome == match answer {
                Some(_) => Outcome::Empty,
                None => Outcome::NotFound,
            },
    {
        match answer {
            Some(_) => Outcome::Empty,
            None => Outcome::NotFound,
        }
    }
}

/// The five operations that a transport offers, each on the one store that
/// the gateway was made with.
pub struct Gateway {
    store: DogStore,
}

impl Gateway {
    /// The store that the gateway asks.
    pub closed spec fn store(&self) -> DogStore {
        self.store
    }

    /// A gateway to `store`: every request that it answers, it answers from
    /// this store.
    pub fn new(store: DogStore) -> (gateway: Gateway)
        ensures
            gateway.store() == store,
    {
        Gateway { store }
    }

    /// Lists all dogs. Always succeeds; the list may be empty. No dog is
    /// listed twice, and each stands under an identifier that the store
    /// drew.
    pub fn get_dogs(&self) -> (outcome: Outcome)
        ensures
            outcome matches Outcome::Many(all) && {
                &&& forall|i: int, j: int|
                    0 <= i < j < all@.len() ==> (#[trigger] all@[i])@.id != (
                    #[trigger] all@[j])@.id
                &&& forall|i: int| 0 <= i < all@.len() ==> is_random_id((#[trigger] all@[i])@.id)
            },
    {
        Outcome::listed(self.store.list())
    }

    /// Fetches the dog filed under `id`. An `id` that is not of the shape
    /// that the store draws is never found.
    pub fn get_dog(&self, id: &str) -> (outcome: Outcome)
        ensures
            match outcome {
                Outcome::One(dog) => dog@.id == id@,
                Outcome::NotFound => true,
                _ => false,
            },
            !is_random_id(id@) ==> outcome is NotFound,
    {
        Outcome::found(self.store.get(id))
    }

    /// Creates a dog from `body` under a fresh identifier. An identifier in
    /// the body is ignored. A body that lacks a required field is turned
    /// away before the store is asked.
    pub fn create_dog(&self, body: DogBody) -> (outcome: Outcome)
        ensures
            match body@.checked() {
                Err(error) => outcome == Outcome::Invalid(error),
                Ok(fields) => match outcome {
                    Outcome::Created(dog) => is_random_id(dog@.id) && dog@ == fields.with_id(
                        dog@.id,
                    ),
                    Outcome::Collision => true,
                    _ => false,
                },
            },
    {
        match body.validate() {
            Err(error) => Outcome::Invalid(error),
            Ok(fields) => Outcome::created(self.store.create(fields)),
        }
    }

    /// Replaces the breed and name of the dog filed under `id` by those of
    /// `body`. An identifier in the body is ignored: the dog stays under
    /// `id`. A body that lacks a required field is turned away before the
    /// store is asked; a replacement never creates a dog.
    pub fn update_dog(&self, id: &str, body: DogBody) -> (outcome: Outcome)
        ensures
            match body@.checked() {
                Err(error) => outcome == Outcome::Invalid(error),
                Ok(fields) => match outcome {
                    Outcome::One(dog) => dog@ == fields.with_id(id@),
                    Outcome::NotFound => true,
                    _ => false,
                },
            },
            body@.checked() is Ok && !is_random_id(id@) ==> outcome is NotFound,
    {
        match body.validate() {
            Err(error) => Outcome::Invalid(error),
            Ok(fields) => {
                let dog = Dog::from_fields(id.to_owned(), fields);
                Outcome::found(self.store.replace(id, dog))
            },
        }
    }

    /// Deletes the dog filed under `id`: success with nothing to send if
    /// there was one, not-found if there was none. An `id` that is not of
    /// the shape that the store draws is never found.
    pub fn delete_dog(&self, id: &str) -> (outcome: Outcome)
        ensures
            outcome is Empty || outcome is NotFound,
            !is_random_id(id@) ==> outcome is NotFound,
    {
        Outcome::deleted(self.store.delete(id))
    }
}

} // verus!
