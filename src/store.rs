//! The store: the identifier allocator and the three tables, each keyed by
//! identifier. This module alone touches the tables; the operations built on
//! it go through the primitives below, whose contracts speak of the view.

use std::collections::BTreeMap;
use vstd::prelude::*;
use vstd::std_specs::btree::increasing_seq;
use vstd::laws_cmp::obeys_cmp;
use vstd::std_specs::cmp::OrdSpec;
use vstd::std_specs::iter::IteratorSpec;

use crate::entity::{Event, Ticket, User};
use crate::model::{ascending, StoreView};

verus! {

/// The allocator and the event, user and ticket tables.
pub struct Store {
    next_id: u64,
    events: BTreeMap<u64, Event>,
    users: BTreeMap<u64, User>,
    tickets: BTreeMap<u64, Ticket>,
}

impl View for Store {
    type V = StoreView;

    closed spec fn view(&self) -> StoreView {
        StoreView {
            next_id: self.next_id,
            events: self.events@.map_values(|e: Event| e@),
            users: self.users@.map_values(|u: User| u@),
            tickets: self.tickets@,
        }
    }
}

/// The event stored under `id`, if any.
pub fn _get_event(store: &Store, id: &u64) -> (r: Option<Event>)
    ensures
        match r {
            Some(e) => store@.events.contains_key(*id) && e@ == store@.events[*id],
            None => !store@.events.contains_key(*id),
        },
{
    match store.events.get(id) {
        Some(e) => Some(e.copy_record()),
        None => None,
    }
}

/// The user stored under `id`, if any.
pub fn _get_user(store: &Store, id: &u64) -> (r: Option<User>)
    ensures
        match r {
            Some(u) => store@.users.contains_key(*id) && u@ == store@.users[*id],
            None => !store@.users.contains_key(*id),
        },
{
    match store.users.get(id) {
        Some(u) => Some(u.copy_record()),
        None => None,
    }
}

/// The ticket stored under `id`, if any.
pub fn _get_ticket(store: &Store, id: &u64) -> (r: Option<Ticket>)
    ensures
        match r {
            Some(t) => store@.tickets.contains_key(*id) && t == store@.tickets[*id],
            None => !store@.tickets.contains_key(*id),
        },
{
    match store.tickets.get(id) {
        Some(t) => Some(*t),
        None => None,
    }
}

impl Store {
    /// An empty store whose first identifier is 0.
    pub fn new() -> (r: Store)
        ensures
            r@ == StoreView::empty(),
            r@.wf(),
    {
        Store::starting_at(0)
    }

    /// An empty store whose first identifier is `next_id`.
    pub(crate) fn starting_at(next_id: u64) -> (r: Store)
        ensures
            r@ == (StoreView { next_id, ..StoreView::empty() }),
            r@.wf(),
    {
        let r = Store {
            next_id,
            events: BTreeMap::new(),
            users: BTreeMap::new(),
            tickets: BTreeMap::new(),
        };
        assert(r@.events =~= Map::empty());
        assert(r@.users =~= Map::empty());
        r
    }

    /// The identifier the allocator hands out next.
    pub fn peek_next_id(&self) -> (r: u64)
        ensures
            r == self@.next_id,
    {
        self.next_id
    }

    /// Hands out the current counter value and moves the counter past it.
    pub fn next_id(&mut self) -> (id: u64)
        requires
            old(self)@.next_id < u64::MAX,
        ensures
            id == old(self)@.next_id,
            final(self)@ == old(self)@.allocated(),
    {
        let id = self.next_id;
        self.next_id = id + 1;
        id
    }

    /// Writes `e` under `id`; returns the record it replaced, if any.
    pub(crate) fn insert_event(&mut self, id: u64, e: Event) -> (r: Option<Event>)
        ensures
            final(self)@ == old(self)@.with_event(id, e@),
            match r {
                Some(p) => old(self)@.events.contains_key(id) && p@ == old(self)@.events[id],
                None => !old(self)@.events.contains_key(id),
            },
    {
        let ghost v = e@;
        let r = self.events.insert(id, e);
        assert(self@.events =~= old(self)@.events.insert(id, v));
        r
    }

    /// Removes the record under `id`; returns it, if there was one.
    pub(crate) fn remove_event(&mut self, id: u64) -> (r: Option<Event>)
        ensures
            final(self)@ == old(self)@.without_event(id),
            match r {
                Some(p) => old(self)@.events.contains_key(id) && p@ == old(self)@.events[id],
                None => !old(self)@.events.contains_key(id),
            },
    {
        let r = self.events.remove(&id);
        assert(self@.events =~= old(self)@.events.remove(id));
        r
    }

    /// Writes `u` under `id`; returns the record it replaced, if any.
    pub(crate) fn insert_user(&mut self, id: u64, u: User) -> (r: Option<User>)
        ensures
            final(self)@ == old(self)@.with_user(id, u@),
            match r {
                Some(p) => old(self)@.users.contains_key(id) && p@ == old(self)@.users[id],
                None => !old(self)@.users.contains_key(id),
            },
    {
        let ghost v = u@;
        let r = self.users.insert(id, u);
        assert(self@.users =~= old(self)@.users.insert(id, v));
        r
    }

    /// Removes the record under `id`; returns it, if there was one.
    pub(crate) fn remove_user(&mut self, id: u64) -> (r: Option<User>)
        ensures
            final(self)@ == old(self)@.without_user(id),
            match r {
                Some(p) => old(self)@.users.contains_key(id) && p@ == old(self)@.users[id],
                None => !old(self)@.users.contains_key(id),
            },
    {
        let r = self.users.remove(&id);
        assert(self@.users =~= old(self)@.users.remove(id));
        r
    }

    /// Writes `t` under `id`; returns the record it replaced, if any.
    pub(crate) fn insert_ticket(&mut self, id: u64, t: Ticket) -> (r: Option<Ticket>)
        ensures
            final(self)@ == old(self)@.with_ticket(id, t),
            match r {
                Some(p) => old(self)@.tickets.contains_key(id) && p == old(self)@.tickets[id],
                None => !old(self)@.tickets.contains_key(id),
            },
    {
        self.tickets.insert(id, t)
    }

    /// Removes the record under `id`; returns it, if there was one.
    pub(crate) fn remove_ticket(&mut self, id: u64) -> (r: Option<Ticket>)
        ensures
            final(self)@ == old(self)@.without_ticket(id),
            match r {
                Some(p) => old(self)@.tickets.contains_key(id) && p == old(self)@.tickets[id],
                None => !old(self)@.tickets.contains_key(id),
            },
    {
        self.tickets.remove(&id)
    }

    /// Every event, in ascending order of identifier.
    pub fn get_all_events(&self) -> (r: Vec<Event>)
        ensures
            exists|ks: Seq<u64>|
                {
                    &&& ascending(ks)
                    &&& ks.to_set() == self@.events.dom()
                    &&& r@.map_values(|e: Event| e@) == ks.map_values(|k: u64| self@.events[k])
                },
    {
        let vals = self.events.values();
        let ghost m = self.events@;
        let ghost ks = choose|ks: Seq<u64>|
            {
                &&& increasing_seq(ks)
                &&& ks.to_set() == m.dom()
                &&& ks.no_duplicates()
                &&& vals.remaining() == ks.map(|i: int, k: u64| &m[k])
            };
        let mut r: Vec<Event> = Vec::new();
        for e in it: vals
            invariant
                it.seq() == ks.map(|i: int, k: u64| &m[k]),
                r.len() == it.index(),
                forall|i: int| 0 <= i < r.len() ==> r@[i]@ == (*it.seq()[i])@,
        {
            r.push(e.copy_record());
        }
        assert(r@.map_values(|e: Event| e@) =~= ks.map_values(|k: u64| self@.events[k]));
        assert(ascending(ks)) by {
            assert(obeys_cmp::<u64>());
            assert forall|i: int, j: int| 0 <= i < j < ks.len() implies ks[i] < ks[j] by {
                assert(ks[i].cmp_spec(&ks[j]) is Less);
            }
        }
        r
    }

    /// Every user, in ascending order of identifier.
    pub fn get_all_users(&self) -> (r: Vec<User>)
        ensures
            exists|ks: Seq<u64>|
                {
                    &&& ascending(ks)
                    &&& ks.to_set() == self@.users.dom()
                    &&& r@.map_values(|u: User| u@) == ks.map_values(|k: u64| self@.users[k])
                },
    {
        let vals = self.users.values();
        let ghost m = self.users@;
        let ghost ks = choose|ks: Seq<u64>|
            {
                &&& increasing_seq(ks)
                &&& ks.to_set() == m.dom()
                &&& ks.no_duplicates()
                &&& vals.remaining() == ks.map(|i: int, k: u64| &m[k])
            };
        let mut r: Vec<User> = Vec::new();
        for u in it: vals
            invariant
                it.seq() == ks.map(|i: int, k: u64| &m[k]),
                r.len() == it.index(),
                forall|i: int| 0 <= i < r.len() ==> r@[i]@ == (*it.seq()[i])@,
        {
            r.push(u.copy_record());
        }
        assert(r@.map_values(|u: User| u@) =~= ks.map_values(|k: u64| self@.users[k]));
        assert(ascending(ks)) by {
            assert(obeys_cmp::<u64>());
            assert forall|i: int, j: int| 0 <= i < j < ks.len() implies ks[i] < ks[j] by {
                assert(ks[i].cmp_spec(&ks[j]) is Less);
            }
        }
        r
    }

    /// Every ticket, in ascending order of identifier.
    pub fn get_all_tickets(&self) -> (r: Vec<Ticket>)
        ensures
            exists|ks: Seq<u64>|
                {
                    &&& ascending(ks)
                    &&& ks.to_set() == self@.tickets.dom()
                    &&& r@ == ks.map_values(|k: u64| self@.tickets[k])
                },
    {
        let vals = self.tickets.values();
        let ghost m = self.tickets@;
        let ghost ks = choose|ks: Seq<u64>|
            {
                &&& increasing_seq(ks)
                &&& ks.to_set() == m.dom()
                &&& ks.no_duplicates()
                &&& vals.remaining() == ks.map(|i: int, k: u64| &m[k])
            };
        let mut r: Vec<Ticket> = Vec::new();
        for t in it: vals
            invariant
                it.seq() == ks.map(|i: int, k: u64| &m[k]),
                r.len() == it.index(),
                forall|i: int| 0 <= i < r.len() ==> r@[i] == *it.seq()[i],
        {
            r.push(*t);
        }
        assert(r@ =~= ks.map_values(|k: u64| self@.tickets[k]));
        assert(ascending(ks)) by {
            assert(obeys_cmp::<u64>());
            assert forall|i: int, j: int| 0 <= i < j < ks.len() implies ks[i] < ks[j] by {
                assert(ks[i].cmp_spec(&ks[j]) is Less);
            }
        }
        r
    }
}

} // verus!
