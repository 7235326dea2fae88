//! A registry of dogs that many request handlers share.
//!
//! The registry maps generated identifiers to dog records. Handlers read and
//! change it through a gateway that turns every request into one outcome, and
//! every outcome into one status code.
//!
//! - `dog`: the records.
//! - `model`: the registry as a mathematical value, and what each operation
//!   makes of it.
//! - `laws`: what holds of every registry.
//! - `registry`: the registry itself, `DogMap`, for one owner.
//! - `drawn`: a `DogMap` that holds dogs under drawn identifiers only.
//! - `store`: `DogStore`, such a map behind a reader-writer lock, for many
//!   threads.
//! - `gateway`: body validation, outcomes and status codes.
//! - `ident`: fresh identifiers.
//! - `harness`: what a load test sends.

pub mod dog;
mod drawn;
pub mod gateway;
pub mod harness;
pub mod ident;
pub mod laws;
mod lock;
pub mod model;
pub mod registry;
pub mod store;

pub use dog::{Dog, NewDog};
pub use gateway::{DogBody, Gateway, Outcome, ValidationError};
pub use registry::{DogMap, IdCollision};
pub use store::DogStore;
