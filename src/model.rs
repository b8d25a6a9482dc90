//! The abstract state of a store and, as spec functions over it, what each
//! operation returns and leaves behind.

use vstd::prelude::*;

use crate::entity::{
    drop_id, EventPayload, EventView, Ticket, TicketPayload, User, UserPayload, UserView,
};
use crate::error::{AssociationError, AssociationStep, EntityKind, Error};

verus! {

/// The three tables, keyed by identifier, and the next identifier to hand out.
pub struct StoreView {
    pub next_id: u64,
    pub events: Map<u64, EventView>,
    pub users: Map<u64, UserView>,
    pub tickets: Map<u64, Ticket>,
}

/// Every id in `s` was handed out before `next_id`.
pub open spec fn ids_below(s: Seq<u64>, next_id: u64) -> bool {
    forall|i: int| 0 <= i < s.len() ==> s[i] < next_id
}

/// Dropping an id keeps the others below any bound they were below, and
/// leaves no occurrence of it.
pub proof fn lemma_drop_id(s: Seq<u64>, x: u64, n: u64)
    ensures
        ids_below(s, n) ==> ids_below(drop_id(s, x), n),
        !drop_id(s, x).contains(x),
    decreases s.len(),
{
    reveal_with_fuel(Seq::filter, 1);
    if s.len() > 0 {
        lemma_drop_id(s.drop_last(), x, n);
        assert(ids_below(s, n) ==> ids_below(s.drop_last(), n));
    }
}

/// `x` occurs in `s` at exactly one position.
pub open spec fn occurs_once(s: Seq<u64>, x: u64) -> bool {
    exists|i: int|
        0 <= i < s.len() && s[i] == x && forall|j: int| 0 <= j < s.len() && j != i ==> s[j] != x
}

/// `ks` is strictly increasing.
pub open spec fn ascending(ks: Seq<u64>) -> bool {
    forall|i: int, j: int| 0 <= i < j < ks.len() ==> ks[i] < ks[j]
}

/// The error of a failed ticket creation.
pub open spec fn failed(step: AssociationStep, cause: Error, t: Ticket) -> Result<
    Ticket,
    AssociationError,
> {
    Err(AssociationError::AssociationFailed { step, cause, ticket: t })
}

/// A result with its success value replaced by that value's view.
pub open spec fn viewed<T: View, E>(r: Result<T, E>) -> Result<T::V, E> {
    match r {
        Ok(t) => Ok(t@),
        Err(e) => Err(e),
    }
}

/// The records stored under `ids`, in order; or the first id that has none.
pub open spec fn resolve<V>(m: Map<u64, V>, ids: Seq<u64>, kind: EntityKind) -> Result<
    Seq<V>,
    Error,
>
    decreases ids.len(),
{
    if ids.len() == 0 {
        Ok(Seq::empty())
    } else {
        match resolve(m, ids.drop_last(), kind) {
            Err(e) => Err(e),
            Ok(found) => if m.contains_key(ids.last()) {
                Ok(found.push(m[ids.last()]))
            } else {
                Err(Error::NotFound { kind, id: ids.last() })
            },
        }
    }
}

/// Where the first `i` ids already fail to resolve, all of them fail the same way.
pub proof fn lemma_resolve_prefix_err<V>(m: Map<u64, V>, ids: Seq<u64>, i: int, kind: EntityKind)
    requires
        0 <= i <= ids.len(),
        resolve(m, ids.take(i), kind) is Err,
    ensures
        resolve(m, ids, kind) == resolve(m, ids.take(i), kind),
    decreases ids.len(),
{
    if i == ids.len() {
        assert(ids.take(i) =~= ids);
    } else {
        assert(ids.drop_last().take(i) =~= ids.take(i));
        lemma_resolve_prefix_err(m, ids.drop_last(), i, kind);
    }
}

/// The views of a sequence of users.
pub open spec fn user_views(s: Seq<User>) -> Seq<UserView> {
    s.map_values(|u: User| u@)
}

/// A new event: the payload's fields, no links, never updated.
pub open spec fn fresh_event(id: u64, p: EventPayload, now: u64) -> EventView {
    EventView {
        id,
        name: p.name@,
        description: p.description@,
        date: p.date@,
        start_time: p.start_time@,
        location: p.location@,
        attendee_ids: Seq::empty(),
        ticket_ids: Seq::empty(),
        created_at: now,
        updated_at: None,
    }
}

/// `e` with the payload's fields; identity, links and creation time kept.
pub open spec fn revised_event(e: EventView, p: EventPayload, now: u64) -> EventView {
    EventView {
        name: p.name@,
        description: p.description@,
        date: p.date@,
        start_time: p.start_time@,
        location: p.location@,
        updated_at: Some(now),
        ..e
    }
}

/// A new user: the payload's fields, no links, never updated.
pub open spec fn fresh_user(id: u64, p: UserPayload, now: u64) -> UserView {
    UserView {
        id,
        name: p.name@,
        email: p.email@,
        password: p.password@,
        event_ids: Seq::empty(),
        ticket_ids: Seq::empty(),
        created_at: now,
        updated_at: None,
    }
}

/// `u` with the payload's fields; identity, links and creation time kept.
pub open spec fn revised_user(u: UserView, p: UserPayload, now: u64) -> UserView {
    UserView {
        name: p.name@,
        email: p.email@,
        password: p.password@,
        updated_at: Some(now),
        ..u
    }
}

/// A new ticket for the payload's event and user, never updated.
pub open spec fn fresh_ticket(id: u64, p: TicketPayload, now: u64) -> Ticket {
    Ticket { id, event_id: p.event_id, user_id: p.user_id, created_at: now, updated_at: None }
}

/// `t` pointed at the payload's event and user; identity and creation time kept.
pub open spec fn revised_ticket(t: Ticket, p: TicketPayload, now: u64) -> Ticket {
    Ticket { event_id: p.event_id, user_id: p.user_id, updated_at: Some(now), ..t }
}

impl StoreView {
    /// A store with no records that hands out 0 first.
    pub open spec fn empty() -> StoreView {
        StoreView { next_id: 0, events: Map::empty(), users: Map::empty(), tickets: Map::empty() }
    }

    /// Every record sits under its own id, and every id held by a record or
    /// one of its link arrays was handed out already.
    pub open spec fn wf(self) -> bool {
        &&& forall|k: u64| #[trigger]
            self.events.contains_key(k) ==> {
                &&& k < self.next_id
                &&& self.events[k].id == k
                &&& ids_below(self.events[k].attendee_ids, self.next_id)
                &&& ids_below(self.events[k].ticket_ids, self.next_id)
            }
        &&& forall|k: u64| #[trigger]
            self.users.contains_key(k) ==> {
                &&& k < self.next_id
                &&& self.users[k].id == k
                &&& ids_below(self.users[k].event_ids, self.next_id)
                &&& ids_below(self.users[k].ticket_ids, self.next_id)
            }
        &&& forall|k: u64| #[trigger]
            self.tickets.contains_key(k) ==> k < self.next_id && self.tickets[k].id == k
    }

    /// The state after one identifier has been handed out.
    pub open spec fn allocated(self) -> StoreView {
        StoreView { next_id: (self.next_id + 1) as u64, ..self }
    }

    pub open spec fn lookup_event(self, id: u64) -> Result<EventView, Error> {
        if self.events.contains_key(id) {
            Ok(self.events[id])
        } else {
            Err(Error::NotFound { kind: EntityKind::Event, id })
        }
    }

    pub open spec fn lookup_user(self, id: u64) -> Result<UserView, Error> {
        if self.users.contains_key(id) {
            Ok(self.users[id])
        } else {
            Err(Error::NotFound { kind: EntityKind::User, id })
        }
    }

    pub open spec fn lookup_ticket(self, id: u64) -> Result<Ticket, Error> {
        if self.tickets.contains_key(id) {
            Ok(self.tickets[id])
        } else {
            Err(Error::NotFound { kind: EntityKind::Ticket, id })
        }
    }

    pub open spec fn with_event(self, id: u64, e: EventView) -> StoreView {
        StoreView { events: self.events.insert(id, e), ..self }
    }

    pub open spec fn with_user(self, id: u64, u: UserView) -> StoreView {
        StoreView { users: self.users.insert(id, u), ..self }
    }

    pub open spec fn with_ticket(self, id: u64, t: Ticket) -> StoreView {
        StoreView { tickets: self.tickets.insert(id, t), ..self }
    }

    pub open spec fn without_event(self, id: u64) -> StoreView {
        StoreView { events: self.events.remove(id), ..self }
    }

    pub open spec fn without_user(self, id: u64) -> StoreView {
        StoreView { users: self.users.remove(id), ..self }
    }

    pub open spec fn without_ticket(self, id: u64) -> StoreView {
        StoreView { tickets: self.tickets.remove(id), ..self }
    }
    /// Creating an event: it takes the next identifier.
    pub open spec fn create_event(self, p: EventPayload, now: u64) -> (StoreView, Result<
        EventView,
        Error,
    >) {
        let e = fresh_event(self.next_id, p, now);
        (self.allocated().with_event(self.next_id, e), Ok(e))
    }

    pub open spec fn update_event(self, id: u64, p: EventPayload, now: u64) -> (StoreView, Result<
        EventView,
        Error,
    >) {
        match self.lookup_event(id) {
            Err(x) => (self, Err(x)),
            Ok(e) => (self.with_event(id, revised_event(e, p, now)), Ok(revised_event(e, p, now))),
        }
    }

    /// Deleting an event removes its row only: no ticket or user is touched.
    pub open spec fn delete_event(self, id: u64) -> (StoreView, Result<EventView, Error>) {
        match self.lookup_event(id) {
            Err(x) => (self, Err(x)),
            Ok(e) => (self.without_event(id), Ok(e)),
        }
    }

    /// Creating a user: it takes the next identifier.
    pub open spec fn create_user(self, p: UserPayload, now: u64) -> (StoreView, Result<
        UserView,
        Error,
    >) {
        let u = fresh_user(self.next_id, p, now);
        (self.allocated().with_user(self.next_id, u), Ok(u))
    }

    pub open spec fn update_user(self, id: u64, p: UserPayload, now: u64) -> (StoreView, Result<
        UserView,
        Error,
    >) {
        match self.lookup_user(id) {
            Err(x) => (self, Err(x)),
            Ok(u) => (self.with_user(id, revised_user(u, p, now)), Ok(revised_user(u, p, now))),
        }
    }

    /// Deleting a user removes its row only: no ticket or event is touched.
    pub open spec fn delete_user(self, id: u64) -> (StoreView, Result<UserView, Error>) {
        match self.lookup_user(id) {
            Err(x) => (self, Err(x)),
            Ok(u) => (self.without_user(id), Ok(u)),
        }
    }

    /// Re-pointing a ticket; no link array is touched.
    pub open spec fn update_ticket(self, id: u64, p: TicketPayload, now: u64) -> (StoreView, Result<
        Ticket,
        Error,
    >) {
        match self.lookup_ticket(id) {
            Err(x) => (self, Err(x)),
            Ok(t) => (
                self.with_ticket(id, revised_ticket(t, p, now)),
                Ok(revised_ticket(t, p, now)),
            ),
        }
    }

    /// Appending `user_id` to the attendees of event `event_id`; both must exist.
    pub open spec fn add_event_attendee(self, event_id: u64, user_id: u64, now: u64) -> (
        StoreView,
        Result<(), Error>,
    ) {
        match self.lookup_event(event_id) {
            Err(x) => (self, Err(x)),
            Ok(e) => match self.lookup_user(user_id) {
                Err(x) => (self, Err(x)),
                Ok(_) => (
                    self.with_event(
                        event_id,
                        EventView {
                            attendee_ids: e.attendee_ids.push(user_id),
                            updated_at: Some(now),
                            ..e
                        },
                    ),
                    Ok(()),
                ),
            },
        }
    }

    /// Appending `ticket_id` to the tickets of event `event_id`; both must exist.
    pub open spec fn add_event_ticket(self, event_id: u64, ticket_id: u64, now: u64) -> (
        StoreView,
        Result<(), Error>,
    ) {
        match self.lookup_event(event_id) {
            Err(x) => (self, Err(x)),
            Ok(e) => match self.lookup_ticket(ticket_id) {
                Err(x) => (self, Err(x)),
                Ok(_) => (
                    self.with_event(
                        event_id,
                        EventView {
                            ticket_ids: e.ticket_ids.push(ticket_id),
                            updated_at: Some(now),
                            ..e
                        },
                    ),
                    Ok(()),
                ),
            },
        }
    }

    /// Appending `ticket_id` to the tickets of user `user_id`; both must exist.
    pub open spec fn add_user_ticket(self, user_id: u64, ticket_id: u64, now: u64) -> (
        StoreView,
        Result<(), Error>,
    ) {
        match self.lookup_user(user_id) {
            Err(x) => (self, Err(x)),
            Ok(u) => match self.lookup_ticket(ticket_id) {
                Err(x) => (self, Err(x)),
                Ok(_) => (
                    self.with_user(
                        user_id,
                        UserView {
                            ticket_ids: u.ticket_ids.push(ticket_id),
                            updated_at: Some(now),
                            ..u
                        },
                    ),
                    Ok(()),
                ),
            },
        }
    }

    /// Removing every occurrence of `ticket_id` from the tickets of user
    /// `user_id`; both must exist.
    pub open spec fn remove_user_ticket(self, user_id: u64, ticket_id: u64, now: u64) -> (
        StoreView,
        Result<(), Error>,
    ) {
        match self.lookup_user(user_id) {
            Err(x) => (self, Err(x)),
            Ok(u) => match self.lookup_ticket(ticket_id) {
                Err(x) => (self, Err(x)),
                Ok(_) => (
                    self.with_user(
                        user_id,
                        UserView {
                            ticket_ids: drop_id(u.ticket_ids, ticket_id),
                            updated_at: Some(now),
                            ..u
                        },
                    ),
                    Ok(()),
                ),
            },
        }
    }

    /// Ticket creation: the ticket row is written first under the next
    /// identifier; then the user joins the event's attendees, the ticket joins
    /// the user's tickets, and the ticket joins the event's tickets. A failure
    /// of either of the first two links removes the ticket row again; a
    /// failure of the last leaves everything written so far in place.
    pub open spec fn create_ticket(self, p: TicketPayload, now: u64) -> (StoreView, Result<
        Ticket,
        AssociationError,
    >) {
        let t = fresh_ticket(self.next_id, p, now);
        self.allocated().with_ticket(t.id, t).link_attendee(t, now)
    }

    /// First link of ticket creation; on failure the ticket row is removed.
    pub open spec fn link_attendee(self, t: Ticket, now: u64) -> (StoreView, Result<
        Ticket,
        AssociationError,
    >) {
        let (s, r) = self.add_event_attendee(t.event_id, t.user_id, now);
        match r {
            Err(c) => (s.without_ticket(t.id), failed(AssociationStep::AddAttendee, c, t)),
            Ok(_) => s.link_user_ticket(t, now),
        }
    }

    /// Second link of ticket creation; on failure the ticket row is removed.
    pub open spec fn link_user_ticket(self, t: Ticket, now: u64) -> (StoreView, Result<
        Ticket,
        AssociationError,
    >) {
        let (s, r) = self.add_user_ticket(t.user_id, t.id, now);
        match r {
            Err(c) => (s.without_ticket(t.id), failed(AssociationStep::AddUserTicket, c, t)),
            Ok(_) => s.link_event_ticket(t, now),
        }
    }

    /// Last link of ticket creation; on failure nothing is rolled back.
    pub open spec fn link_event_ticket(self, t: Ticket, now: u64) -> (StoreView, Result<
        Ticket,
        AssociationError,
    >) {
        let (s, r) = self.add_event_ticket(t.event_id, t.id, now);
        match r {
            Err(c) => (s, failed(AssociationStep::AddEventTicket, c, t)),
            Ok(_) => (s, Ok(t)),
        }
    }

    /// Ticket deletion: the ticket, its user and its event must all exist;
    /// the ticket's id is filtered out of the user's and the event's tickets
    /// and the ticket row is removed.
    pub open spec fn delete_ticket(self, id: u64, now: u64) -> (StoreView, Result<Ticket, Error>) {
        match self.lookup_ticket(id) {
            Err(x) => (self, Err(x)),
            Ok(t) => match self.lookup_user(t.user_id) {
                Err(x) => (self, Err(x)),
                Ok(u) => match self.lookup_event(t.event_id) {
                    Err(x) => (self, Err(x)),
                    Ok(e) => (self.unlinked(t, u, e, now), Ok(t)),
                },
            },
        }
    }

    /// `t` filtered out of the tickets of `u` and `e`, and its row removed.
    pub open spec fn unlinked(self, t: Ticket, u: UserView, e: EventView, now: u64) -> StoreView {
        let u2 = UserView {
            ticket_ids: drop_id(u.ticket_ids, t.id),
            updated_at: Some(now),
            ..u
        };
        let e2 = EventView {
            ticket_ids: drop_id(e.ticket_ids, t.id),
            updated_at: Some(now),
            ..e
        };
        self.with_user(t.user_id, u2).with_event(t.event_id, e2).without_ticket(t.id)
    }

    /// The users attending event `id`, one per entry of its attendee list.
    pub open spec fn event_attendees(self, id: u64) -> Result<Seq<UserView>, Error> {
        match self.lookup_event(id) {
            Err(x) => Err(x),
            Ok(e) => resolve(self.users, e.attendee_ids, EntityKind::User),
        }
    }

    /// The tickets of event `id`, one per entry of its ticket list.
    pub open spec fn event_tickets(self, id: u64) -> Result<Seq<Ticket>, Error> {
        match self.lookup_event(id) {
            Err(x) => Err(x),
            Ok(e) => resolve(self.tickets, e.ticket_ids, EntityKind::Ticket),
        }
    }

    /// The tickets of user `id`, one per entry of its ticket list; a user
    /// without tickets is an error.
    pub open spec fn user_tickets(self, id: u64) -> Result<Seq<Ticket>, Error> {
        match self.lookup_user(id) {
            Err(x) => Err(x),
            Ok(u) => match resolve(self.tickets, u.ticket_ids, EntityKind::Ticket) {
                Err(x) => Err(x),
                Ok(ts) => if ts.len() == 0 {
                    Err(Error::NoTickets { user_id: id })
                } else {
                    Ok(ts)
                },
            },
        }
    }
}

} // verus!
