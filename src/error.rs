use vstd::prelude::*;

use crate::entity::Ticket;

verus! {

/// Which of the three tables an identifier was looked up in.
#[derive(Clone, Copy, Debug, PartialEq, Eq, Structural)]
pub enum EntityKind {
    Event,
    User,
    Ticket,
}

/// Failures of the single-entity operations and of the queries.
#[derive(Clone, Copy, Debug, PartialEq, Eq, Structural)]
pub enum Error {
    /// No record of this kind is stored under `id`.
    NotFound { kind: EntityKind, id: u64 },
    /// The table already held a record under the freshly allocated `id`.
    CreationFailed { kind: EntityKind, id: u64 },
    /// The table held no record under `id` when the replacement was written.
    UpdateFailed { kind: EntityKind, id: u64 },
    /// The user exists but holds no tickets.
    NoTickets { user_id: u64 },
}

/// The association step of ticket creation that failed.
#[derive(Clone, Copy, Debug, PartialEq, Eq, Structural)]
pub enum AssociationStep {
    /// Appending the user to the event's attendees (the ticket row is rolled back).
    AddAttendee,
    /// Appending the ticket to the user's tickets (the ticket row is rolled back).
    AddUserTicket,
    /// Appending the ticket to the event's tickets (nothing is rolled back).
    AddEventTicket,
}

/// Failure of ticket creation: the step that failed, why, and the ticket
/// that was built for the attempt.
#[derive(Clone, Copy, Debug, PartialEq, Eq, Structural)]
pub enum AssociationError {
    AssociationFailed { step: AssociationStep, cause: Error, ticket: Ticket },
}

} // verus!
