//! Events, users and tickets kept in three keyed tables, with the link arrays
//! between them (an event's attendees and tickets, a user's tickets) kept in
//! step by the operations of a store.
//!
//! - `store`: the identifier allocator and the three tables.
//! - `records`: create, read, update and delete of single records.
//! - `links`: the association operations, ticket creation and deletion, and
//!   the queries that follow link arrays.
//! - `snapshot`: rebuilding a store from its records.
//! - `model`: the abstract state and what each operation does to it.
//! - `laws`: properties relating several operations.

pub mod entity;
pub mod error;
pub mod laws;
pub mod links;
pub mod model;
pub mod records;
pub mod snapshot;
pub mod store;

pub use entity::{Event, EventPayload, Ticket, TicketPayload, User, UserPayload};
pub use error::{AssociationError, AssociationStep, EntityKind, Error};
pub use store::{Store, _get_event, _get_ticket, _get_user};
