//! A durable inventory of perishable food items.
//!
//! Records live in stable memory, keyed by an identifier that a persisted
//! counter hands out once and never again. Every operation is stated over a
//! mathematical model of the store ([`model::StoreState`]) and proved against it.
//!
//! The caller supplies the clock reading and the identity of whoever makes a
//! request; the library never reads either for itself. The memory is the
//! library's own to make: a store is opened on a [`stable::StableMemory`],
//! which no code outside the library can write to.

pub mod codec;
pub mod expiration_status;
pub mod food_item;
pub mod food_item_manager;
pub mod food_item_operations;
pub mod gates;
pub mod laws;
pub mod model;
pub mod quantity;
pub mod query;
pub mod stable;
pub mod text;
