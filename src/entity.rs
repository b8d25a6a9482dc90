use vstd::prelude::*;

verus! {

/// An event, with the users attending it and the tickets issued for it.
#[derive(Debug)]
pub struct Event {
    pub id: u64,
    pub name: String,
    pub description: String,
    pub date: String,
    pub start_time: String,
    pub location: String,
    pub attendee_ids: Vec<u64>,
    pub ticket_ids: Vec<u64>,
    pub created_at: u64,
    pub updated_at: Option<u64>,
}

/// A user, with the tickets it holds. `event_ids` is carried but never filled.
#[derive(Debug)]
pub struct User {
    pub id: u64,
    pub name: String,
    pub email: String,
    pub password: String,
    pub event_ids: Vec<u64>,
    pub ticket_ids: Vec<u64>,
    pub created_at: u64,
    pub updated_at: Option<u64>,
}

/// A ticket: the link between one event and one user.
#[derive(Clone, Copy, Debug, PartialEq, Eq, Structural)]
pub struct Ticket {
    pub id: u64,
    pub event_id: u64,
    pub user_id: u64,
    pub created_at: u64,
    pub updated_at: Option<u64>,
}

/// The caller-supplied fields of an event.
#[derive(Debug)]
pub struct EventPayload {
    pub name: String,
    pub description: String,
    pub date: String,
    pub start_time: String,
    pub location: String,
}

/// The caller-supplied fields of a user.
#[derive(Debug)]
pub struct UserPayload {
    pub name: String,
    pub email: String,
    pub password: String,
}

/// The caller-supplied fields of a ticket.
#[derive(Clone, Copy, Debug, PartialEq, Eq, Structural)]
pub struct TicketPayload {
    pub event_id: u64,
    pub user_id: u64,
}

/// The mathematical content of an [`Event`].
pub struct EventView {
    pub id: u64,
    pub name: Seq<char>,
    pub description: Seq<char>,
    pub date: Seq<char>,
    pub start_time: Seq<char>,
    pub location: Seq<char>,
    pub attendee_ids: Seq<u64>,
    pub ticket_ids: Seq<u64>,
    pub created_at: u64,
    pub updated_at: Option<u64>,
}

/// The mathematical content of a [`User`].
pub struct UserView {
    pub id: u64,
    pub name: Seq<char>,
    pub email: Seq<char>,
    pub password: Seq<char>,
    pub event_ids: Seq<u64>,
    pub ticket_ids: Seq<u64>,
    pub created_at: u64,
    pub updated_at: Option<u64>,
}

impl View for Event {
    type V = EventView;

    open spec fn view(&self) -> EventView {
        EventView {
            id: self.id,
            name: self.name@,
            description: self.description@,
            date: self.date@,
            start_time: self.start_time@,
            location: self.location@,
            attendee_ids: self.attendee_ids@,
            ticket_ids: self.ticket_ids@,
            created_at: self.created_at,
            updated_at: self.updated_at,
        }
    }
}

impl View for User {
    type V = UserView;

    open spec fn view(&self) -> UserView {
        UserView {
            id: self.id,
            name: self.name@,
            email: self.email@,
            password: self.password@,
            event_ids: self.event_ids@,
            ticket_ids: self.ticket_ids@,
            created_at: self.created_at,
            updated_at: self.updated_at,
        }
    }
}

impl View for Ticket {
    type V = Ticket;

    open spec fn view(&self) -> Ticket {
        *self
    }
}

/// A copy of an id list, element for element.
pub fn copy_ids(v: &Vec<u64>) -> (r: Vec<u64>)
    ensures
        r@ == v@,
{
    let r = v.clone();
    assert(r@ =~= v@);
    r
}

/// The entries of `s` that differ from `x`, in their order.
pub open spec fn drop_id(s: Seq<u64>, x: u64) -> Seq<u64> {
    s.filter(|y: u64| y != x)
}

/// Keeps the ids of `v` that differ from `x`, in their order.
pub fn without_id(v: &Vec<u64>, x: u64) -> (r: Vec<u64>)
    ensures
        r@ == drop_id(v@, x),
{
    let mut r: Vec<u64> = Vec::new();
    let mut i: usize = 0;
    while i < v.len()
        invariant
            i <= v.len(),
            r@ == drop_id(v@.take(i as int), x),
        decreases v.len() - i,
    {
        proof {
            reveal_with_fuel(Seq::filter, 1);
            assert(v@.take(i as int + 1).drop_last() =~= v@.take(i as int));
        }
        if v[i] != x {
            r.push(v[i]);
        }
        i = i + 1;
    }
    assert(v@.take(v.len() as int) =~= v@);
    r
}

impl Event {
    /// A copy of this record, field for field.
    pub fn copy_record(&self) -> (r: Event)
        ensures
            r@ == self@,
    {
        Event {
            id: self.id,
            name: self.name.clone(),
            description: self.description.clone(),
            date: self.date.clone(),
            start_time: self.start_time.clone(),
            location: self.location.clone(),
            attendee_ids: copy_ids(&self.attendee_ids),
            ticket_ids: copy_ids(&self.ticket_ids),
            created_at: self.created_at,
            updated_at: self.updated_at,
        }
    }
}

impl User {
    /// A copy of this record, field for field.
    pub fn copy_record(&self) -> (r: User)
        ensures
            r@ == self@,
    {
        User {
            id: self.id,
            name: self.name.clone(),
            email: self.email.clone(),
            password: self.password.clone(),
            event_ids: copy_ids(&self.event_ids),
            ticket_ids: copy_ids(&self.ticket_ids),
            created_at: self.created_at,
            updated_at: self.updated_at,
        }
    }
}

} // verus!
