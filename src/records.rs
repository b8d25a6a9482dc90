//! Single-record operations: create, read, update and delete of events and
//! users, and read and update of tickets.

use vstd::prelude::*;

use crate::entity::{Event, EventPayload, Ticket, TicketPayload, User, UserPayload};
use crate::error::{EntityKind, Error};
use crate::model::{fresh_event, fresh_user, revised_event, revised_user, viewed};
use crate::store::{Store, _get_event, _get_ticket, _get_user};

verus! {

impl Store {
    /// Stores a new event built from the payload under the next identifier,
    /// with no links, created at `now` and never updated.
    pub fn create_event(&mut self, payload: EventPayload, now: u64) -> (r: Result<Event, Error>)
        requires
            old(self)@.wf(),
            old(self)@.next_id < u64::MAX,
        ensures
            final(self)@.wf(),
            (final(self)@, viewed(r)) == old(self)@.create_event(payload, now),
    {
        let ghost p = payload;
        let id = self.next_id();
        let event = Event {
            id,
            name: payload.name,
            description: payload.description,
            date: payload.date,
            start_time: payload.start_time,
            location: payload.location,
            attendee_ids: Vec::new(),
            ticket_ids: Vec::new(),
            created_at: now,
            updated_at: None,
        };
        assert(event@ =~= fresh_event(id, p, now));
        match self.insert_event(id, event.copy_record()) {
            None => Ok(event),
            Some(_) => Err(Error::CreationFailed { kind: EntityKind::Event, id }),
        }
    }

    /// The event stored under `id`.
    pub fn get_event(&self, id: u64) -> (r: Result<Event, Error>)
        ensures
            viewed(r) == self@.lookup_event(id),
    {
        match _get_event(self, &id) {
            Some(e) => Ok(e),
            None => Err(Error::NotFound { kind: EntityKind::Event, id }),
        }
    }

    /// Replaces the payload's fields of event `id`, keeping its links and
    /// creation time, and marks it updated at `now`.
    pub fn update_event(&mut self, id: u64, payload: EventPayload, now: u64) -> (r: Result<
        Event,
        Error,
    >)
        requires
            old(self)@.wf(),
        ensures
            final(self)@.wf(),
            (final(self)@, viewed(r)) == old(self)@.update_event(id, payload, now),
    {
        let ghost p = payload;
        let old_event = match _get_event(self, &id) {
            Some(e) => e,
            None => { return Err(Error::NotFound { kind: EntityKind::Event, id }) },
        };
        let event = Event {
            id,
            name: payload.name,
            description: payload.description,
            date: payload.date,
            start_time: payload.start_time,
            location: payload.location,
            attendee_ids: old_event.attendee_ids,
            ticket_ids: old_event.ticket_ids,
            created_at: old_event.created_at,
            updated_at: Some(now),
        };
        assert(event@ =~= revised_event(old(self)@.events[id], p, now));
        match self.insert_event(id, event.copy_record()) {
            Some(_) => Ok(event),
            None => Err(Error::UpdateFailed { kind: EntityKind::Event, id }),
        }
    }

    /// Removes event `id` and returns it. Tickets and users that refer to it
    /// are left as they are.
    pub fn delete_event(&mut self, id: u64) -> (r: Result<Event, Error>)
        requires
            old(self)@.wf(),
        ensures
            final(self)@.wf(),
            (final(self)@, viewed(r)) == old(self)@.delete_event(id),
    {
        if _get_event(self, &id).is_none() {
            return Err(Error::NotFound { kind: EntityKind::Event, id });
        }
        match self.remove_event(id) {
            Some(e) => Ok(e),
            None => Err(Error::NotFound { kind: EntityKind::Event, id }),
        }
    }

    /// Stores a new user built from the payload under the next identifier,
    /// with no links, created at `now` and never updated.
    pub fn create_user(&mut self, payload: UserPayload, now: u64) -> (r: Result<User, Error>)
        requires
            old(self)@.wf(),
            old(self)@.next_id < u64::MAX,
        ensures
            final(self)@.wf(),
            (final(self)@, viewed(r)) == old(self)@.create_user(payload, now),
    {
        let ghost p = payload;
        let id = self.next_id();
        let user = User {
            id,
            name: payload.name,
            email: payload.email,
            password: payload.password,
            event_ids: Vec::new(),
            ticket_ids: Vec::new(),
            created_at: now,
            updated_at: None,
        };
        assert(user@ =~= fresh_user(id, p, now));
        match self.insert_user(id, user.copy_record()) {
            None => Ok(user),
            Some(_) => Err(Error::CreationFailed { kind: EntityKind::User, id }),
        }
    }

    /// The user stored under `id`.
    pub fn get_user(&self, id: u64) -> (r: Result<User, Error>)
        ensures
            viewed(r) == self@.lookup_user(id),
    {
        match _get_user(self, &id) {
            Some(u) => Ok(u),
            None => Err(Error::NotFound { kind: EntityKind::User, id }),
        }
    }

    /// Replaces the payload's fields of user `id`, keeping its links and
    /// creation time, and marks it updated at `now`.
    pub fn update_user(&mut self, id: u64, payload: UserPayload, now: u64) -> (r: Result<
        User,
        Error,
    >)
        requires
            old(self)@.wf(),
        ensures
            final(self)@.wf(),
            (final(self)@, viewed(r)) == old(self)@.update_user(id, payload, now),
    {
        let ghost p = payload;
        let old_user = match _get_user(self, &id) {
            Some(u) => u,
            None => { return Err(Error::NotFound { kind: EntityKind::User, id }) },
        };
        let user = User {
            id,
            name: payload.name,
            email: payload.email,
            password: payload.password,
            event_ids: old_user.event_ids,
            ticket_ids: old_user.ticket_ids,
            created_at: old_user.created_at,
            updated_at: Some(now),
        };
        assert(user@ =~= revised_user(old(self)@.users[id], p, now));
        match self.insert_user(id, user.copy_record()) {
            Some(_) => Ok(user),
            None => Err(Error::UpdateFailed { kind: EntityKind::User, id }),
        }
    }

    /// Removes user `id` and returns it. Tickets and events that refer to it
    /// are left as they are.
    pub fn delete_user(&mut self, id: u64) -> (r: Result<User, Error>)
        requires
            old(self)@.wf(),
        ensures
            final(self)@.wf(),
            (final(self)@, viewed(r)) == old(self)@.delete_user(id),
    {
        if _get_user(self, &id).is_none() {
            return Err(Error::NotFound { kind: EntityKind::User, id });
        }
        match self.remove_user(id) {
            Some(u) => Ok(u),
            None => Err(Error::NotFound { kind: EntityKind::User, id }),
        }
    }

    /// The ticket stored under `id`.
    pub fn get_ticket(&self, id: u64) -> (r: Result<Ticket, Error>)
        ensures
            viewed(r) == self@.lookup_ticket(id),
    {
        match _get_ticket(self, &id) {
            Some(t) => Ok(t),
            None => Err(Error::NotFound { kind: EntityKind::Ticket, id }),
        }
    }

    /// Points ticket `id` at the payload's event and user and marks it updated
    /// at `now`. The link arrays are not touched.
    pub fn update_ticket(&mut self, id: u64, payload: TicketPayload, now: u64) -> (r: Result<
        Ticket,
        Error,
    >)
        requires
            old(self)@.wf(),
        ensures
            final(self)@.wf(),
            (final(self)@, viewed(r)) == old(self)@.update_ticket(id, payload, now),
    {
        let old_ticket = match _get_ticket(self, &id) {
            Some(t) => t,
            None => { return Err(Error::NotFound { kind: EntityKind::Ticket, id }) },
        };
        let ticket = Ticket {
            id,
            event_id: payload.event_id,
            user_id: payload.user_id,
            created_at: old_ticket.created_at,
            updated_at: Some(now),
        };
        match self.insert_ticket(id, ticket) {
            Some(_) => Ok(ticket),
            None => Err(Error::UpdateFailed { kind: EntityKind::Ticket, id }),
        }
    }
}

} // verus!
