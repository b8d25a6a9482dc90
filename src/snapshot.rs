//! Rebuilding a store from the records it held, as listed by
//! `get_all_events`, `get_all_users` and `get_all_tickets`, and the
//! allocator's next identifier.

use vstd::prelude::*;

use crate::entity::{Event, EventView, Ticket, User, UserView};
use crate::model::{ids_below, StoreView};
use crate::store::{Store, _get_event, _get_ticket, _get_user};

verus! {

/// Whether every entry of `v` is below `n`.
pub fn all_below(v: &Vec<u64>, n: u64) -> (r: bool)
    ensures
        r == ids_below(v@, n),
{
    let mut i: usize = 0;
    while i < v.len()
        invariant
            i <= v.len(),
            ids_below(v@.take(i as int), n),
        decreases v.len() - i,
    {
        if v[i] >= n {
            return false;
        }
        i = i + 1;
    }
    assert(v@.take(i as int) =~= v@);
    true
}

/// The events have distinct ids, and every id they hold is below `n`.
pub open spec fn events_fit(events: Seq<Event>, n: u64) -> bool {
    &&& forall|i: int, j: int| 0 <= i < j < events.len() ==> events[i].id != events[j].id
    &&& forall|i: int|
        0 <= i < events.len() ==> {
            &&& events[i].id < n
            &&& ids_below(events[i].attendee_ids@, n)
            &&& ids_below(events[i].ticket_ids@, n)
        }
}

/// The users have distinct ids, and every id they hold is below `n`.
pub open spec fn users_fit(users: Seq<User>, n: u64) -> bool {
    &&& forall|i: int, j: int| 0 <= i < j < users.len() ==> users[i].id != users[j].id
    &&& forall|i: int|
        0 <= i < users.len() ==> {
            &&& users[i].id < n
            &&& ids_below(users[i].event_ids@, n)
            &&& ids_below(users[i].ticket_ids@, n)
        }
}

/// The tickets have distinct ids, all below `n`.
pub open spec fn tickets_fit(tickets: Seq<Ticket>, n: u64) -> bool {
    &&& forall|i: int, j: int| 0 <= i < j < tickets.len() ==> tickets[i].id != tickets[j].id
    &&& forall|i: int| 0 <= i < tickets.len() ==> tickets[i].id < n
}

/// `m` holds exactly the given events, each under its own id.
pub open spec fn holds_events(m: Map<u64, EventView>, events: Seq<Event>) -> bool {
    &&& forall|i: int|
        0 <= i < events.len() ==> m.contains_key(events[i].id) && m[events[i].id] == events[i]@
    &&& forall|k: u64| m.contains_key(k) ==> exists|i: int| 0 <= i < events.len() && events[i].id == k
}

/// `m` holds exactly the given users, each under its own id.
pub open spec fn holds_users(m: Map<u64, UserView>, users: Seq<User>) -> bool {
    &&& forall|i: int|
        0 <= i < users.len() ==> m.contains_key(users[i].id) && m[users[i].id] == users[i]@
    &&& forall|k: u64| m.contains_key(k) ==> exists|i: int| 0 <= i < users.len() && users[i].id == k
}

/// `m` holds exactly the given tickets, each under its own id.
pub open spec fn holds_tickets(m: Map<u64, Ticket>, tickets: Seq<Ticket>) -> bool {
    &&& forall|i: int|
        0 <= i < tickets.len() ==> m.contains_key(tickets[i].id) && m[tickets[i].id] == tickets[i]
    &&& forall|k: u64|
        m.contains_key(k) ==> exists|i: int| 0 <= i < tickets.len() && tickets[i].id == k
}

impl Store {
    /// A store holding exactly the given records and handing out `next_id`
    /// next; `None` where two records of a kind share an id or a record
    /// holds an id that is not below `next_id`.
    pub fn restore(next_id: u64, events: Vec<Event>, users: Vec<User>, tickets: Vec<Ticket>) -> (r:
        Option<Store>)
        ensures
            r is Some <==> events_fit(events@, next_id) && users_fit(users@, next_id)
                && tickets_fit(tickets@, next_id),
            r matches Some(s) ==> {
                &&& s@.wf()
                &&& s@.next_id == next_id
                &&& holds_events(s@.events, events@)
                &&& holds_users(s@.users, users@)
                &&& holds_tickets(s@.tickets, tickets@)
            },
    {
        let mut s = Store::starting_at(next_id);
        let mut i: usize = 0;
        while i < events.len()
            invariant
                i <= events.len(),
                s@.wf(),
                s@.next_id == next_id,
                s@.users == Map::<u64, UserView>::empty(),
                s@.tickets == Map::<u64, Ticket>::empty(),
                events_fit(events@.take(i as int), next_id),
                holds_events(s@.events, events@.take(i as int)),
            decreases events.len() - i,
        {
            let e = &events[i];
            let ghost pre = events@.take(i as int);
            let ghost cur = events@.take(i as int + 1);
            assert(cur =~= pre.push(events@[i as int]));
            if e.id >= next_id || !all_below(&e.attendee_ids, next_id) || !all_below(
                &e.ticket_ids,
                next_id,
            ) {
                return None;
            }
            if _get_event(&s, &e.id).is_some() {
                proof {
                    let j = choose|j: int| 0 <= j < pre.len() && pre[j].id == e.id;
                    assert(events@[j].id == events@[i as int].id);
                }
                return None;
            }
            s.insert_event(e.id, e.copy_record());
            proof {
                assert forall|k: u64| s@.events.contains_key(k) implies exists|j: int|
                    0 <= j < cur.len() && cur[j].id == k by {
                    if k == cur[i as int].id {
                        assert(cur[i as int].id == k);
                    } else {
                        let j = choose|j: int| 0 <= j < pre.len() && pre[j].id == k;
                        assert(cur[j].id == k);
                    }
                }
                assert forall|j: int| 0 <= j < cur.len() implies s@.events.contains_key(cur[j].id)
                    && s@.events[cur[j].id] == cur[j]@ by {
                    if j < pre.len() {
                        assert(cur[j] == pre[j]);
                    }
                }
            }
            i = i + 1;
        }
        assert(events@.take(i as int) =~= events@);
        let mut i: usize = 0;
        while i < users.len()
            invariant
                i <= users.len(),
                s@.wf(),
                s@.next_id == next_id,
                s@.tickets == Map::<u64, Ticket>::empty(),
                events_fit(events@, next_id),
                holds_events(s@.events, events@),
                users_fit(users@.take(i as int), next_id),
                holds_users(s@.users, users@.take(i as int)),
            decreases users.len() - i,
        {
            let u = &users[i];
            let ghost pre = users@.take(i as int);
            let ghost cur = users@.take(i as int + 1);
            assert(cur =~= pre.push(users@[i as int]));
            if u.id >= next_id || !all_below(&u.event_ids, next_id) || !all_below(
                &u.ticket_ids,
                next_id,
            ) {
                return None;
            }
            if _get_user(&s, &u.id).is_some() {
                proof {
                    let j = choose|j: int| 0 <= j < pre.len() && pre[j].id == u.id;
                    assert(users@[j].id == users@[i as int].id);
                }
                return None;
            }
            s.insert_user(u.id, u.copy_record());
            proof {
                assert forall|k: u64| s@.users.contains_key(k) implies exists|j: int|
                    0 <= j < cur.len() && cur[j].id == k by {
                    if k == cur[i as int].id {
                        assert(cur[i as int].id == k);
                    } else {
                        let j = choose|j: int| 0 <= j < pre.len() && pre[j].id == k;
                        assert(cur[j].id == k);
                    }
                }
                assert forall|j: int| 0 <= j < cur.len() implies s@.users.contains_key(cur[j].id)
                    && s@.users[cur[j].id] == cur[j]@ by {
                    if j < pre.len() {
                        assert(cur[j] == pre[j]);
                    }
                }
            }
            i = i + 1;
        }
        assert(users@.take(i as int) =~= users@);
        let mut i: usize = 0;
        while i < tickets.len()
            invariant
                i <= tickets.len(),
                s@.wf(),
                s@.next_id == next_id,
                events_fit(events@, next_id),
                holds_events(s@.events, events@),
                users_fit(users@, next_id),
                holds_users(s@.users, users@),
                tickets_fit(tickets@.take(i as int), next_id),
                holds_tickets(s@.tickets, tickets@.take(i as int)),
            decreases tickets.len() - i,
        {
            let t = tickets[i];
            let ghost pre = tickets@.take(i as int);
            let ghost cur = tickets@.take(i as int + 1);
            assert(cur =~= pre.push(tickets@[i as int]));
            if t.id >= next_id {
                return None;
            }
            if _get_ticket(&s, &t.id).is_some() {
                proof {
                    let j = choose|j: int| 0 <= j < pre.len() && pre[j].id == t.id;
                    assert(tickets@[j].id == tickets@[i as int].id);
                }
                return None;
            }
            s.insert_ticket(t.id, t);
            proof {
                assert forall|k: u64| s@.tickets.contains_key(k) implies exists|j: int|
                    0 <= j < cur.len() && cur[j].id == k by {
                    if k == cur[i as int].id {
                        assert(cur[i as int].id == k);
                    } else {
                        let j = choose|j: int| 0 <= j < pre.len() && pre[j].id == k;
                        assert(cur[j].id == k);
                    }
                }
                assert forall|j: int| 0 <= j < cur.len() implies s@.tickets.contains_key(cur[j].id)
                    && s@.tickets[cur[j].id] == cur[j]@ by {
                    if j < pre.len() {
                        assert(cur[j] == pre[j]);
                    }
                }
            }
            i = i + 1;
        }
        assert(tickets@.take(i as int) =~= tickets@);
        Some(s)
    }
}

} // verus!
