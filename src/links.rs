//! The association operations: appending to and filtering the link arrays,
//! ticket creation with its rollback, ticket deletion, and the queries that
//! follow a link array to the records it names.

use vstd::prelude::*;

use crate::entity::{without_id, Ticket, TicketPayload, User, UserView};
use crate::error::{AssociationError, AssociationStep, EntityKind, Error};
use crate::model::{
    fresh_ticket, lemma_drop_id, lemma_resolve_prefix_err, resolve, user_views, viewed,
};
use crate::store::{Store, _get_event, _get_ticket, _get_user};

verus! {

impl Store {
    /// Appends `user_id` to the attendees of event `event_id`. Repeated calls
    /// append repeatedly.
    pub fn add_event_attendee(&mut self, event_id: u64, user_id: u64, now: u64) -> (r: Result<
        (),
        Error,
    >)
        requires
            old(self)@.wf(),
        ensures
            final(self)@.wf(),
            (final(self)@, r) == old(self)@.add_event_attendee(event_id, user_id, now),
    {
        let mut event = match _get_event(self, &event_id) {
            Some(e) => e,
            None => { return Err(Error::NotFound { kind: EntityKind::Event, id: event_id }) },
        };
        match _get_user(self, &user_id) {
            Some(_) => {},
            None => { return Err(Error::NotFound { kind: EntityKind::User, id: user_id }) },
        }
        event.attendee_ids.push(user_id);
        event.updated_at = Some(now);
        self.insert_event(event_id, event);
        Ok(())
    }

    /// Appends `ticket_id` to the tickets of event `event_id`.
    pub fn add_event_ticket(&mut self, event_id: u64, ticket_id: u64, now: u64) -> (r: Result<
        (),
        Error,
    >)
        requires
            old(self)@.wf(),
        ensures
            final(self)@.wf(),
            (final(self)@, r) == old(self)@.add_event_ticket(event_id, ticket_id, now),
    {
        let mut event = match _get_event(self, &event_id) {
            Some(e) => e,
            None => { return Err(Error::NotFound { kind: EntityKind::Event, id: event_id }) },
        };
        match _get_ticket(self, &ticket_id) {
            Some(_) => {},
            None => { return Err(Error::NotFound { kind: EntityKind::Ticket, id: ticket_id }) },
        }
        event.ticket_ids.push(ticket_id);
        event.updated_at = Some(now);
        self.insert_event(event_id, event);
        Ok(())
    }

    /// Appends `ticket_id` to the tickets of user `user_id`.
    pub fn add_user_ticket(&mut self, user_id: u64, ticket_id: u64, now: u64) -> (r: Result<
        (),
        Error,
    >)
        requires
            old(self)@.wf(),
        ensures
            final(self)@.wf(),
            (final(self)@, r) == old(self)@.add_user_ticket(user_id, ticket_id, now),
    {
        let mut user = match _get_user(self, &user_id) {
            Some(u) => u,
            None => { return Err(Error::NotFound { kind: EntityKind::User, id: user_id }) },
        };
        match _get_ticket(self, &ticket_id) {
            Some(_) => {},
            None => { return Err(Error::NotFound { kind: EntityKind::Ticket, id: ticket_id }) },
        }
        user.ticket_ids.push(ticket_id);
        user.updated_at = Some(now);
        self.insert_user(user_id, user);
        Ok(())
    }

    /// Removes every occurrence of `ticket_id` from the tickets of user `user_id`.
    pub fn remove_user_ticket(&mut self, user_id: u64, ticket_id: u64, now: u64) -> (r: Result<
        (),
        Error,
    >)
        requires
            old(self)@.wf(),
        ensures
            final(self)@.wf(),
            (final(self)@, r) == old(self)@.remove_user_ticket(user_id, ticket_id, now),
    {
        let mut user = match _get_user(self, &user_id) {
            Some(u) => u,
            None => { return Err(Error::NotFound { kind: EntityKind::User, id: user_id }) },
        };
        match _get_ticket(self, &ticket_id) {
            Some(_) => {},
            None => { return Err(Error::NotFound { kind: EntityKind::Ticket, id: ticket_id }) },
        }
        proof {
            lemma_drop_id(user.ticket_ids@, ticket_id, self@.next_id);
        }
        user.ticket_ids = without_id(&user.ticket_ids, ticket_id);
        user.updated_at = Some(now);
        self.insert_user(user_id, user);
        Ok(())
    }

    /// Creates a ticket for the payload's event and user under the next
    /// identifier and links it: the user joins the event's attendees, the
    /// ticket joins the user's tickets, then the event's tickets. When one of
    /// the first two links fails the ticket row is removed again (its
    /// identifier stays used); when the last fails nothing is undone. In a
    /// well-formed store the last two links cannot fail once the first has
    /// succeeded (see `laws::create_ticket_outcome`).
    pub fn create_ticket(&mut self, payload: TicketPayload, now: u64) -> (r: Result<
        Ticket,
        AssociationError,
    >)
        requires
            old(self)@.wf(),
            old(self)@.next_id < u64::MAX,
        ensures
            final(self)@.wf(),
            (final(self)@, r) == old(self)@.create_ticket(payload, now),
    {
        let id = self.next_id();
        let ticket = Ticket {
            id,
            event_id: payload.event_id,
            user_id: payload.user_id,
            created_at: now,
            updated_at: None,
        };
        assert(ticket == fresh_ticket(id, payload, now));
        self.insert_ticket(id, ticket);
        match self.add_event_attendee(payload.event_id, payload.user_id, now) {
            Ok(()) => {},
            Err(cause) => {
                self.remove_ticket(id);
                return Err(
                    AssociationError::AssociationFailed {
                        step: AssociationStep::AddAttendee,
                        cause,
                        ticket,
                    },
                );
            },
        }
        match self.add_user_ticket(payload.user_id, id, now) {
            Ok(()) => {},
            Err(cause) => {
                self.remove_ticket(id);
                return Err(
                    AssociationError::AssociationFailed {
                        step: AssociationStep::AddUserTicket,
                        cause,
                        ticket,
                    },
                );
            },
        }
        match self.add_event_ticket(payload.event_id, id, now) {
            Ok(()) => {},
            Err(cause) => {
                return Err(
                    AssociationError::AssociationFailed {
                        step: AssociationStep::AddEventTicket,
                        cause,
                        ticket,
                    },
                );
            },
        }
        Ok(ticket)
    }

    /// Deletes ticket `id`: filters it out of its user's and its event's
    /// tickets, writes the user, then the event, then removes the ticket row.
    /// Returns the deleted ticket.
    pub fn delete_ticket(&mut self, id: u64, now: u64) -> (r: Result<Ticket, Error>)
        requires
            old(self)@.wf(),
        ensures
            final(self)@.wf(),
            (final(self)@, r) == old(self)@.delete_ticket(id, now),
    {
        let ticket = match _get_ticket(self, &id) {
            Some(t) => t,
            None => { return Err(Error::NotFound { kind: EntityKind::Ticket, id }) },
        };
        let user_id = ticket.user_id;
        let event_id = ticket.event_id;
        let mut user = match _get_user(self, &user_id) {
            Some(u) => u,
            None => { return Err(Error::NotFound { kind: EntityKind::User, id: user_id }) },
        };
        let mut event = match _get_event(self, &event_id) {
            Some(e) => e,
            None => { return Err(Error::NotFound { kind: EntityKind::Event, id: event_id }) },
        };
        proof {
            lemma_drop_id(user.ticket_ids@, id, self@.next_id);
            lemma_drop_id(event.ticket_ids@, id, self@.next_id);
        }
        user.ticket_ids = without_id(&user.ticket_ids, id);
        user.updated_at = Some(now);
        event.ticket_ids = without_id(&event.ticket_ids, id);
        event.updated_at = Some(now);
        match self.insert_user(user_id, user) {
            Some(_) => {},
            None => { return Err(Error::UpdateFailed { kind: EntityKind::User, id: user_id }) },
        }
        match self.insert_event(event_id, event) {
            Some(_) => {},
            None => { return Err(Error::UpdateFailed { kind: EntityKind::Event, id: event_id }) },
        }
        match self.remove_ticket(id) {
            Some(_) => {},
            None => { return Err(Error::NotFound { kind: EntityKind::Ticket, id }) },
        }
        Ok(ticket)
    }

    /// The users stored under `ids`, in order; or the first id with none.
    fn resolve_users(&self, ids: &Vec<u64>) -> (r: Result<Vec<User>, Error>)
        ensures
            match r {
                Ok(v) => resolve(self@.users, ids@, EntityKind::User) == Ok::<
                    Seq<UserView>,
                    Error,
                >(user_views(v@)),
                Err(e) => resolve(self@.users, ids@, EntityKind::User) == Err::<
                    Seq<UserView>,
                    Error,
                >(e),
            },
    {
        let mut out: Vec<User> = Vec::new();
        let mut i: usize = 0;
        assert(user_views(out@) =~= Seq::empty());
        while i < ids.len()
            invariant
                i <= ids.len(),
                resolve(self@.users, ids@.take(i as int), EntityKind::User) == Ok::<
                    Seq<UserView>,
                    Error,
                >(user_views(out@)),
            decreases ids.len() - i,
        {
            let k = ids[i];
            assert(ids@.take(i as int + 1).drop_last() =~= ids@.take(i as int));
            match _get_user(self, &k) {
                Some(u) => {
                    let ghost before = out@;
                    out.push(u);
                    assert(user_views(out@) =~= user_views(before).push(u@));
                },
                None => {
                    proof {
                        lemma_resolve_prefix_err(
                            self@.users,
                            ids@,
                            i as int + 1,
                            EntityKind::User,
                        );
                    }
                    return Err(Error::NotFound { kind: EntityKind::User, id: k });
                },
            }
            i = i + 1;
        }
        assert(ids@.take(i as int) =~= ids@);
        Ok(out)
    }

    /// The tickets stored under `ids`, in order; or the first id with none.
    fn resolve_tickets(&self, ids: &Vec<u64>) -> (r: Result<Vec<Ticket>, Error>)
        ensures
            viewed(r) == resolve(self@.tickets, ids@, EntityKind::Ticket),
    {
        let mut out: Vec<Ticket> = Vec::new();
        let mut i: usize = 0;
        while i < ids.len()
            invariant
                i <= ids.len(),
                resolve(self@.tickets, ids@.take(i as int), EntityKind::Ticket) == Ok::<
                    Seq<Ticket>,
                    Error,
                >(out@),
            decreases ids.len() - i,
        {
            let k = ids[i];
            assert(ids@.take(i as int + 1).drop_last() =~= ids@.take(i as int));
            match _get_ticket(self, &k) {
                Some(t) => {
                    out.push(t);
                },
                None => {
                    proof {
                        lemma_resolve_prefix_err(
                            self@.tickets,
                            ids@,
                            i as int + 1,
                            EntityKind::Ticket,
                        );
                    }
                    return Err(Error::NotFound { kind: EntityKind::Ticket, id: k });
                },
            }
            i = i + 1;
        }
        assert(ids@.take(i as int) =~= ids@);
        Ok(out)
    }

    /// The users attending event `id`, one per entry of its attendee list
    /// (repeated entries give repeated users).
    pub fn get_event_attendees(&self, id: u64) -> (r: Result<Vec<User>, Error>)
        ensures
            match r {
                Ok(v) => self@.event_attendees(id) == Ok::<Seq<UserView>, Error>(user_views(v@)),
                Err(e) => self@.event_attendees(id) == Err::<Seq<UserView>, Error>(e),
            },
    {
        match _get_event(self, &id) {
            Some(event) => self.resolve_users(&event.attendee_ids),
            None => Err(Error::NotFound { kind: EntityKind::Event, id }),
        }
    }

    /// The tickets of event `id`, one per entry of its ticket list.
    pub fn get_event_tickets(&self, id: u64) -> (r: Result<Vec<Ticket>, Error>)
        ensures
            viewed(r) == self@.event_tickets(id),
    {
        match _get_event(self, &id) {
            Some(event) => self.resolve_tickets(&event.ticket_ids),
            None => Err(Error::NotFound { kind: EntityKind::Event, id }),
        }
    }

    /// The tickets of user `id`, one per entry of its ticket list; a user
    /// holding no ticket gives `NoTickets`.
    pub fn get_user_tickets(&self, id: u64) -> (r: Result<Vec<Ticket>, Error>)
        ensures
            viewed(r) == self@.user_tickets(id),
    {
        let user = match _get_user(self, &id) {
            Some(u) => u,
            None => { return Err(Error::NotFound { kind: EntityKind::User, id }) },
        };
        let tickets = match self.resolve_tickets(&user.ticket_ids) {
            Ok(ts) => ts,
            Err(e) => { return Err(e) },
        };
        if tickets.len() == 0 {
            Err(Error::NoTickets { user_id: id })
        } else {
            Ok(tickets)
        }
    }
}

} // verus!
