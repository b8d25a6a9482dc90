//! Properties relating several operations, proved over the abstract state.

use vstd::prelude::*;

use crate::entity::{EventPayload, EventView, Ticket, TicketPayload, UserView};
use crate::error::{AssociationError, AssociationStep, EntityKind, Error};
use crate::model::{failed, fresh_ticket, lemma_drop_id, occurs_once, resolve, StoreView};

verus! {

/// The ids of a sequence of tickets.
pub open spec fn ticket_ids_of(ts: Seq<Ticket>) -> Seq<u64> {
    ts.map_values(|t: Ticket| t.id)
}

/// Following one more id extends a successful resolution by its record.
pub proof fn lemma_resolve_push<V>(m: Map<u64, V>, ids: Seq<u64>, k: u64, kind: EntityKind)
    requires
        m.contains_key(k),
    ensures
        resolve(m, ids.push(k), kind) == match resolve(m, ids, kind) {
            Ok(found) => Ok(found.push(m[k])),
            Err(x) => Err(x),
        },
{
    assert(ids.push(k).drop_last() =~= ids);
}

/// Writing under a key that `ids` does not hold leaves their resolution unchanged.
pub proof fn lemma_resolve_insert_other<V>(
    m: Map<u64, V>,
    ids: Seq<u64>,
    k: u64,
    v: V,
    kind: EntityKind,
)
    requires
        !ids.contains(k),
    ensures
        resolve(m.insert(k, v), ids, kind) == resolve(m, ids, kind),
    decreases ids.len(),
{
    if ids.len() > 0 {
        assert(!ids.drop_last().contains(k)) by {
            if ids.drop_last().contains(k) {
                let i = choose|i: int| 0 <= i < ids.drop_last().len() && ids.drop_last()[i] == k;
                assert(ids[i] == k);
            }
        }
        assert(ids[ids.len() - 1] != k);
        lemma_resolve_insert_other(m, ids.drop_last(), k, v, kind);
    }
}

/// A successful resolution of tickets in a well-formed store gives back the
/// ids it was asked for.
pub proof fn lemma_resolve_ticket_ids(s: StoreView, ids: Seq<u64>)
    requires
        s.wf(),
        resolve(s.tickets, ids, EntityKind::Ticket) is Ok,
    ensures
        ticket_ids_of(resolve(s.tickets, ids, EntityKind::Ticket)->Ok_0) == ids,
    decreases ids.len(),
{
    if ids.len() > 0 {
        lemma_resolve_ticket_ids(s, ids.drop_last());
        let found = resolve(s.tickets, ids.drop_last(), EntityKind::Ticket)->Ok_0;
        assert(ticket_ids_of(found.push(s.tickets[ids.last()])) =~= ticket_ids_of(found).push(
            ids.last(),
        ));
        assert(ids.drop_last().push(ids.last()) =~= ids);
    } else {
        assert(ticket_ids_of(Seq::empty()) =~= ids);
    }
}

/// Reading back a newly created event gives the payload's fields, empty link
/// arrays, the creation time, and no update time.
pub proof fn create_event_then_get(s: StoreView, p: EventPayload, now: u64)
    requires
        s.wf(),
        s.next_id < u64::MAX,
    ensures
        ({
            let (s1, r) = s.create_event(p, now);
            let id = s.next_id;
            &&& r is Ok
            &&& s1.lookup_event(id) == r
            &&& s1.events[id].id == id
            &&& s1.events[id].name == p.name@
            &&& s1.events[id].description == p.description@
            &&& s1.events[id].date == p.date@
            &&& s1.events[id].start_time == p.start_time@
            &&& s1.events[id].location == p.location@
            &&& s1.events[id].attendee_ids.len() == 0
            &&& s1.events[id].ticket_ids.len() == 0
            &&& s1.events[id].created_at == now
            &&& s1.events[id].updated_at is None
        }),
{
}

/// Updating an event keeps its creation time and both link arrays and sets
/// its update time to `now`; with a clock that never runs backwards that is
/// no earlier than any earlier write of the event.
pub proof fn update_event_keeps_history(s: StoreView, id: u64, p: EventPayload, now: u64)
    requires
        s.wf(),
        s.events.contains_key(id),
    ensures
        ({
            let (s1, r) = s.update_event(id, p, now);
            let e = s.events[id];
            let e1 = s1.events[id];
            &&& r == Ok::<EventView, Error>(e1)
            &&& e1.created_at == e.created_at
            &&& e1.attendee_ids == e.attendee_ids
            &&& e1.ticket_ids == e.ticket_ids
            &&& e1.updated_at == Some(now)
            &&& now >= e.created_at ==> e1.updated_at->0 >= e.created_at
            &&& e.updated_at is Some && now >= e.updated_at->0 ==> e1.updated_at->0 >= e.updated_at->0
        }),
{
}

/// Adding the same attendee twice appends it twice, and the attendee query
/// then ends with that user twice.
pub proof fn attendee_round_trip(s: StoreView, e: u64, u: u64, now1: u64, now2: u64)
    requires
        s.wf(),
        s.events.contains_key(e),
        s.users.contains_key(u),
    ensures
        ({
            let (s1, r1) = s.add_event_attendee(e, u, now1);
            let (s2, r2) = s1.add_event_attendee(e, u, now2);
            let before = s.events[e].attendee_ids;
            &&& r1 is Ok
            &&& r2 is Ok
            &&& s1.events[e].attendee_ids == before.push(u)
            &&& s2.events[e].attendee_ids == before.push(u).push(u)
            &&& match s.event_attendees(e) {
                Ok(found) => {
                    &&& s1.event_attendees(e) == Ok::<Seq<UserView>, Error>(found.push(s.users[u]))
                    &&& s2.event_attendees(e) == Ok::<_, Error>(
                        found.push(s.users[u]).push(s.users[u]),
                    )
                },
                Err(x) => s1.event_attendees(e) == Err::<Seq<UserView>, Error>(x) && s2.event_attendees(e)
                    == Err::<Seq<UserView>, Error>(x),
            }
        }),
{
    let (s1, _) = s.add_event_attendee(e, u, now1);
    let before = s.events[e].attendee_ids;
    lemma_resolve_push(s.users, before, u, EntityKind::User);
    lemma_resolve_push(s.users, before.push(u), u, EntityKind::User);
}

/// Ticket creation succeeds exactly when its event and its user exist;
/// otherwise it fails at the first link, and the ticket row is gone again.
pub proof fn create_ticket_outcome(s: StoreView, p: TicketPayload, now: u64)
    requires
        s.wf(),
        s.next_id < u64::MAX,
    ensures
        ({
            let (s1, r) = s.create_ticket(p, now);
            let t = fresh_ticket(s.next_id, p, now);
            &&& s1.wf()
            &&& s1.next_id == s.next_id + 1
            &&& (r is Ok) == (s.events.contains_key(p.event_id) && s.users.contains_key(p.user_id))
            &&& r is Ok ==> r == Ok::<Ticket, AssociationError>(t)
            &&& !s.events.contains_key(p.event_id) ==> r == failed(
                AssociationStep::AddAttendee,
                Error::NotFound { kind: EntityKind::Event, id: p.event_id },
                t,
            )
            &&& s.events.contains_key(p.event_id) && !s.users.contains_key(p.user_id) ==> r
                == failed(
                AssociationStep::AddAttendee,
                Error::NotFound { kind: EntityKind::User, id: p.user_id },
                t,
            )
            &&& r is Err ==> s1.tickets == s.tickets && s1.events == s.events && s1.users
                == s.users
        }),
{
    let id = s.next_id;
    let t = fresh_ticket(id, p, now);
    assert(s.allocated().with_ticket(id, t).without_ticket(id).tickets =~= s.tickets);
    assert(s.allocated().with_ticket(id, t).wf());
}

/// A ticket created for an existing event and user is the last entry of the
/// user's and of the event's tickets, its id occurs there exactly once, and
/// both ticket queries list it exactly once wherever they succeed.
pub proof fn create_ticket_links_once(s: StoreView, p: TicketPayload, now: u64)
    requires
        s.wf(),
        s.next_id < u64::MAX,
        s.events.contains_key(p.event_id),
        s.users.contains_key(p.user_id),
    ensures
        ({
            let (s1, r) = s.create_ticket(p, now);
            let id = s.next_id;
            let t = fresh_ticket(id, p, now);
            &&& r == Ok::<Ticket, AssociationError>(t)
            &&& s1.tickets == s.tickets.insert(id, t)
            &&& s1.users[p.user_id].ticket_ids == s.users[p.user_id].ticket_ids.push(id)
            &&& s1.events[p.event_id].ticket_ids == s.events[p.event_id].ticket_ids.push(id)
            &&& s1.events[p.event_id].attendee_ids == s.events[p.event_id].attendee_ids.push(
                p.user_id,
            )
            &&& occurs_once(s1.users[p.user_id].ticket_ids, id)
            &&& occurs_once(s1.events[p.event_id].ticket_ids, id)
            &&& s1.user_tickets(p.user_id) is Ok ==> occurs_once(
                ticket_ids_of(s1.user_tickets(p.user_id)->Ok_0),
                id,
            )
            &&& s1.event_tickets(p.event_id) is Ok ==> occurs_once(
                ticket_ids_of(s1.event_tickets(p.event_id)->Ok_0),
                id,
            )
            &&& (s1.user_tickets(p.user_id) is Ok) == (resolve(
                s.tickets,
                s.users[p.user_id].ticket_ids,
                EntityKind::Ticket,
            ) is Ok)
            &&& (s1.event_tickets(p.event_id) is Ok) == (resolve(
                s.tickets,
                s.events[p.event_id].ticket_ids,
                EntityKind::Ticket,
            ) is Ok)
        }),
{
    let id = s.next_id;
    let t = fresh_ticket(id, p, now);
    let (s1, _) = s.create_ticket(p, now);
    let uids = s.users[p.user_id].ticket_ids;
    let eids = s.events[p.event_id].ticket_ids;
    assert(s.allocated().with_ticket(id, t).wf());
    assert(s1.wf()) by {
        create_ticket_outcome(s, p, now);
    }
    assert(!uids.contains(id));
    assert(!eids.contains(id));
    assert(s1.tickets =~= s.tickets.insert(id, t));
    assert(uids.push(id)[uids.len() as int] == id);
    assert(eids.push(id)[eids.len() as int] == id);
    lemma_resolve_insert_other(s.tickets, uids, id, t, EntityKind::Ticket);
    lemma_resolve_insert_other(s.tickets, eids, id, t, EntityKind::Ticket);
    lemma_resolve_push(s1.tickets, uids, id, EntityKind::Ticket);
    lemma_resolve_push(s1.tickets, eids, id, EntityKind::Ticket);
    if s1.user_tickets(p.user_id) is Ok {
        lemma_resolve_ticket_ids(s1, uids.push(id));
    }
    if s1.event_tickets(p.event_id) is Ok {
        lemma_resolve_ticket_ids(s1, eids.push(id));
    }
}

/// Deleting a ticket whose user and event exist removes its id from both
/// link arrays and removes its row, so reading it back fails.
pub proof fn delete_ticket_unlinks(s: StoreView, id: u64, now: u64)
    requires
        s.wf(),
        s.tickets.contains_key(id),
        s.users.contains_key(s.tickets[id].user_id),
        s.events.contains_key(s.tickets[id].event_id),
    ensures
        ({
            let (s1, r) = s.delete_ticket(id, now);
            let t = s.tickets[id];
            &&& r == Ok::<Ticket, Error>(t)
            &&& !s1.users[t.user_id].ticket_ids.contains(id)
            &&& !s1.events[t.event_id].ticket_ids.contains(id)
            &&& !s1.tickets.contains_key(id)
            &&& s1.lookup_ticket(id) == Err::<Ticket, _>(
                Error::NotFound { kind: EntityKind::Ticket, id },
            )
        }),
{
    let t = s.tickets[id];
    lemma_drop_id(s.users[t.user_id].ticket_ids, id, s.next_id);
    lemma_drop_id(s.events[t.event_id].ticket_ids, id, s.next_id);
}

/// Deleting an event or a user leaves every ticket in place, including those
/// that refer to it.
pub proof fn delete_keeps_tickets(s: StoreView, id: u64)
    requires
        s.wf(),
    ensures
        s.delete_event(id).0.tickets == s.tickets,
        s.delete_user(id).0.tickets == s.tickets,
        forall|k: u64| #[trigger]
            s.delete_event(id).0.lookup_ticket(k) == s.lookup_ticket(k),
        forall|k: u64| #[trigger]
            s.delete_user(id).0.lookup_ticket(k) == s.lookup_ticket(k),
{
}

} // verus!
