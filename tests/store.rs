use e_ticketer_backend::{
    AssociationError, AssociationStep, EntityKind, Error, EventPayload, Store, TicketPayload,
    UserPayload,
};

fn event_payload(name: &str) -> EventPayload {
    EventPayload {
        name: name.to_string(),
        description: "an evening of music".to_string(),
        date: "2024-05-01".to_string(),
        start_time: "19:30".to_string(),
        location: "Main Hall".to_string(),
    }
}

fn user_payload(name: &str) -> UserPayload {
    UserPayload {
        name: name.to_string(),
        email: format!("{}@example.com", name),
        password: "hunter2".to_string(),
    }
}

#[test]
fn create_event_then_get_returns_payload_fields() {
    let mut store = Store::new();
    let created = store.create_event(event_payload("Concert"), 100).unwrap();
    assert_eq!(created.id, 0);
    let read = store.get_event(created.id).unwrap();
    assert_eq!(read.id, 0);
    assert_eq!(read.name, "Concert");
    assert_eq!(read.description, "an evening of music");
    assert_eq!(read.date, "2024-05-01");
    assert_eq!(read.start_time, "19:30");
    assert_eq!(read.location, "Main Hall");
    assert!(read.attendee_ids.is_empty());
    assert!(read.ticket_ids.is_empty());
    assert_eq!(read.created_at, 100);
    assert_eq!(read.updated_at, None);
}

#[test]
fn get_event_twice_gives_identical_records() {
    let mut store = Store::new();
    let e = store.create_event(event_payload("Talk"), 5).unwrap();
    let u = store.create_user(user_payload("ann"), 6).unwrap();
    store.add_event_attendee(e.id, u.id, 7).unwrap();
    let a = store.get_event(e.id).unwrap();
    let b = store.get_event(e.id).unwrap();
    assert_eq!(format!("{:?}", a), format!("{:?}", b));
    assert_eq!(
        store.get_event(99).map(|_| ()),
        Err(Error::NotFound { kind: EntityKind::Event, id: 99 })
    );
}

#[test]
fn update_event_keeps_creation_time_and_links() {
    let mut store = Store::new();
    let e = store.create_event(event_payload("Old"), 10).unwrap();
    let u = store.create_user(user_payload("bob"), 11).unwrap();
    let t = store.create_ticket(TicketPayload { event_id: e.id, user_id: u.id }, 12).unwrap();
    let updated = store.update_event(e.id, event_payload("New"), 20).unwrap();
    assert_eq!(updated.name, "New");
    assert_eq!(updated.created_at, 10);
    assert_eq!(updated.attendee_ids, vec![u.id]);
    assert_eq!(updated.ticket_ids, vec![t.id]);
    assert_eq!(updated.updated_at, Some(20));
    let read = store.get_event(e.id).unwrap();
    assert_eq!(read.name, "New");
    assert_eq!(read.updated_at, Some(20));
    assert!(read.updated_at.unwrap() >= read.created_at);
}

#[test]
fn update_missing_records_is_not_found() {
    let mut store = Store::new();
    assert_eq!(
        store.update_event(3, event_payload("x"), 1).map(|_| ()),
        Err(Error::NotFound { kind: EntityKind::Event, id: 3 })
    );
    assert_eq!(
        store.update_user(4, user_payload("x"), 1).map(|_| ()),
        Err(Error::NotFound { kind: EntityKind::User, id: 4 })
    );
    assert_eq!(
        store.update_ticket(5, TicketPayload { event_id: 0, user_id: 0 }, 1),
        Err(Error::NotFound { kind: EntityKind::Ticket, id: 5 })
    );
}

#[test]
fn update_user_returns_the_new_record() {
    let mut store = Store::new();
    let u = store.create_user(user_payload("cat"), 1).unwrap();
    let updated = store.update_user(u.id, user_payload("dan"), 2).unwrap();
    assert_eq!(updated.name, "dan");
    assert_eq!(updated.email, "dan@example.com");
    assert_eq!(updated.created_at, 1);
    assert_eq!(updated.updated_at, Some(2));
    assert_eq!(store.get_user(u.id).unwrap().name, "dan");
}

#[test]
fn attendee_added_twice_appears_twice() {
    let mut store = Store::new();
    let e = store.create_event(event_payload("Fair"), 1).unwrap();
    let u = store.create_user(user_payload("eve"), 2).unwrap();
    store.add_event_attendee(e.id, u.id, 3).unwrap();
    let once = store.get_event_attendees(e.id).unwrap();
    assert_eq!(once.len(), 1);
    assert_eq!(once[0].id, u.id);
    store.add_event_attendee(e.id, u.id, 4).unwrap();
    let twice = store.get_event_attendees(e.id).unwrap();
    assert_eq!(twice.iter().map(|x| x.id).collect::<Vec<_>>(), vec![u.id, u.id]);
    assert_eq!(store.get_event(e.id).unwrap().updated_at, Some(4));
}

#[test]
fn add_event_attendee_needs_event_and_user() {
    let mut store = Store::new();
    let e = store.create_event(event_payload("Fair"), 1).unwrap();
    assert_eq!(
        store.add_event_attendee(e.id, 42, 2),
        Err(Error::NotFound { kind: EntityKind::User, id: 42 })
    );
    assert_eq!(
        store.add_event_attendee(41, 42, 2),
        Err(Error::NotFound { kind: EntityKind::Event, id: 41 })
    );
    assert!(store.get_event(e.id).unwrap().attendee_ids.is_empty());
}

#[test]
fn create_ticket_with_missing_event_rolls_back() {
    let mut store = Store::new();
    let u = store.create_user(user_payload("fay"), 1).unwrap();
    let r = store.create_ticket(TicketPayload { event_id: 77, user_id: u.id }, 2);
    match r {
        Err(AssociationError::AssociationFailed { step, cause, ticket }) => {
            assert_eq!(step, AssociationStep::AddAttendee);
            assert_eq!(cause, Error::NotFound { kind: EntityKind::Event, id: 77 });
            assert_eq!(ticket.id, 1);
            assert_eq!(ticket.event_id, 77);
            assert_eq!(ticket.user_id, u.id);
            assert_eq!(
                store.get_ticket(ticket.id),
                Err(Error::NotFound { kind: EntityKind::Ticket, id: ticket.id })
            );
        }
        Ok(_) => panic!("ticket created for a missing event"),
    }
    assert!(store.get_user(u.id).unwrap().ticket_ids.is_empty());
    // the identifier stays used
    assert_eq!(store.peek_next_id(), 2);
}

#[test]
fn create_ticket_with_missing_user_rolls_back() {
    let mut store = Store::new();
    let e = store.create_event(event_payload("Gala"), 1).unwrap();
    let r = store.create_ticket(TicketPayload { event_id: e.id, user_id: 9 }, 2);
    match r {
        Err(AssociationError::AssociationFailed { step, cause, ticket }) => {
            assert_eq!(step, AssociationStep::AddAttendee);
            assert_eq!(cause, Error::NotFound { kind: EntityKind::User, id: 9 });
            assert!(store.get_ticket(ticket.id).is_err());
        }
        Ok(_) => panic!("ticket created for a missing user"),
    }
    assert!(store.get_event(e.id).unwrap().attendee_ids.is_empty());
}

#[test]
fn create_ticket_links_ticket_once_on_both_sides() {
    let mut store = Store::new();
    let e = store.create_event(event_payload("Show"), 1).unwrap();
    let u = store.create_user(user_payload("gus"), 2).unwrap();
    let t = store.create_ticket(TicketPayload { event_id: e.id, user_id: u.id }, 3).unwrap();
    assert_eq!(t.id, 2);
    assert_eq!(t.event_id, e.id);
    assert_eq!(t.user_id, u.id);
    assert_eq!(t.created_at, 3);
    assert_eq!(t.updated_at, None);
    let user_tickets = store.get_user_tickets(u.id).unwrap();
    let event_tickets = store.get_event_tickets(e.id).unwrap();
    assert_eq!(user_tickets.iter().filter(|x| x.id == t.id).count(), 1);
    assert_eq!(event_tickets.iter().filter(|x| x.id == t.id).count(), 1);
    assert_eq!(user_tickets, vec![t]);
    assert_eq!(event_tickets, vec![t]);
    assert_eq!(store.get_event(e.id).unwrap().attendee_ids, vec![u.id]);
    assert_eq!(store.get_ticket(t.id), Ok(t));
}

#[test]
fn delete_ticket_unlinks_both_sides() {
    let mut store = Store::new();
    let e = store.create_event(event_payload("Play"), 1).unwrap();
    let u = store.create_user(user_payload("hal"), 2).unwrap();
    let t1 = store.create_ticket(TicketPayload { event_id: e.id, user_id: u.id }, 3).unwrap();
    let t2 = store.create_ticket(TicketPayload { event_id: e.id, user_id: u.id }, 4).unwrap();
    assert_eq!(store.delete_ticket(t1.id, 5), Ok(t1));
    assert_eq!(store.get_user(u.id).unwrap().ticket_ids, vec![t2.id]);
    assert_eq!(store.get_event(e.id).unwrap().ticket_ids, vec![t2.id]);
    assert_eq!(store.get_user(u.id).unwrap().updated_at, Some(5));
    assert_eq!(
        store.get_ticket(t1.id),
        Err(Error::NotFound { kind: EntityKind::Ticket, id: t1.id })
    );
    assert_eq!(
        store.delete_ticket(t1.id, 6),
        Err(Error::NotFound { kind: EntityKind::Ticket, id: t1.id })
    );
}

#[test]
fn deleting_event_or_user_leaves_tickets_dangling() {
    let mut store = Store::new();
    let e = store.create_event(event_payload("Expo"), 1).unwrap();
    let u = store.create_user(user_payload("ivy"), 2).unwrap();
    let t = store.create_ticket(TicketPayload { event_id: e.id, user_id: u.id }, 3).unwrap();
    let removed = store.delete_event(e.id).unwrap();
    assert_eq!(removed.id, e.id);
    assert_eq!(store.get_ticket(t.id), Ok(t));
    assert!(store.get_event(e.id).is_err());
    store.delete_user(u.id).unwrap();
    assert_eq!(store.get_ticket(t.id), Ok(t));
    assert_eq!(
        store.delete_ticket(t.id, 4),
        Err(Error::NotFound { kind: EntityKind::User, id: u.id })
    );
    assert_eq!(store.get_ticket(t.id), Ok(t));
    assert_eq!(
        store.delete_user(u.id).map(|_| ()),
        Err(Error::NotFound { kind: EntityKind::User, id: u.id })
    );
}

#[test]
fn user_without_tickets_is_an_error() {
    let mut store = Store::new();
    let u = store.create_user(user_payload("jon"), 1).unwrap();
    assert_eq!(store.get_user_tickets(u.id), Err(Error::NoTickets { user_id: u.id }));
    assert_eq!(
        store.get_user_tickets(50),
        Err(Error::NotFound { kind: EntityKind::User, id: 50 })
    );
    let e = store.create_event(event_payload("Quiet"), 2).unwrap();
    assert_eq!(store.get_event_tickets(e.id), Ok(vec![]));
}

#[test]
fn queries_report_the_first_dangling_id() {
    let mut store = Store::new();
    let e = store.create_event(event_payload("Meet"), 1).unwrap();
    let u1 = store.create_user(user_payload("kim"), 2).unwrap();
    let u2 = store.create_user(user_payload("lou"), 3).unwrap();
    store.add_event_attendee(e.id, u1.id, 4).unwrap();
    store.add_event_attendee(e.id, u2.id, 5).unwrap();
    store.delete_user(u2.id).unwrap();
    store.delete_user(u1.id).unwrap();
    assert_eq!(
        store.get_event_attendees(e.id).map(|_| ()),
        Err(Error::NotFound { kind: EntityKind::User, id: u1.id })
    );
}

#[test]
fn remove_user_ticket_drops_every_occurrence() {
    let mut store = Store::new();
    let e = store.create_event(event_payload("Run"), 1).unwrap();
    let u = store.create_user(user_payload("max"), 2).unwrap();
    let t = store.create_ticket(TicketPayload { event_id: e.id, user_id: u.id }, 3).unwrap();
    store.add_user_ticket(u.id, t.id, 4).unwrap();
    assert_eq!(store.get_user(u.id).unwrap().ticket_ids, vec![t.id, t.id]);
    store.remove_user_ticket(u.id, t.id, 5).unwrap();
    assert!(store.get_user(u.id).unwrap().ticket_ids.is_empty());
    assert_eq!(
        store.remove_user_ticket(u.id, 99, 6),
        Err(Error::NotFound { kind: EntityKind::Ticket, id: 99 })
    );
    assert_eq!(
        store.add_event_ticket(e.id, 99, 6),
        Err(Error::NotFound { kind: EntityKind::Ticket, id: 99 })
    );
}

#[test]
fn identifiers_are_shared_and_increasing() {
    let mut store = Store::new();
    assert_eq!(store.peek_next_id(), 0);
    let e = store.create_event(event_payload("A"), 1).unwrap();
    let u = store.create_user(user_payload("ned"), 1).unwrap();
    let t = store.create_ticket(TicketPayload { event_id: e.id, user_id: u.id }, 1).unwrap();
    let e2 = store.create_event(event_payload("B"), 1).unwrap();
    assert_eq!((e.id, u.id, t.id, e2.id), (0, 1, 2, 3));
    assert_eq!(store.next_id(), 4);
    assert_eq!(store.peek_next_id(), 5);
}

#[test]
fn all_events_come_in_ascending_id_order() {
    let mut store = Store::new();
    assert!(store.get_all_events().is_empty());
    let a = store.create_event(event_payload("A"), 1).unwrap();
    let _u = store.create_user(user_payload("olga"), 1).unwrap();
    let b = store.create_event(event_payload("B"), 1).unwrap();
    let c = store.create_event(event_payload("C"), 1).unwrap();
    store.delete_event(b.id).unwrap();
    let all = store.get_all_events();
    assert_eq!(all.iter().map(|e| e.id).collect::<Vec<_>>(), vec![a.id, c.id]);
    assert_eq!(all[1].name, "C");
}

#[test]
fn update_ticket_repoints_without_touching_links() {
    let mut store = Store::new();
    let e = store.create_event(event_payload("P"), 1).unwrap();
    let u = store.create_user(user_payload("pia"), 1).unwrap();
    let t = store.create_ticket(TicketPayload { event_id: e.id, user_id: u.id }, 2).unwrap();
    let moved = store.update_ticket(t.id, TicketPayload { event_id: 8, user_id: 9 }, 3).unwrap();
    assert_eq!(moved.id, t.id);
    assert_eq!((moved.event_id, moved.user_id), (8, 9));
    assert_eq!(moved.created_at, 2);
    assert_eq!(moved.updated_at, Some(3));
    assert_eq!(store.get_user(u.id).unwrap().ticket_ids, vec![t.id]);
}

#[test]
fn raw_lookups_follow_the_tables() {
    let mut store = Store::new();
    let e = store.create_event(event_payload("R"), 1).unwrap();
    let u = store.create_user(user_payload("quin"), 1).unwrap();
    let t = store.create_ticket(TicketPayload { event_id: e.id, user_id: u.id }, 1).unwrap();
    assert_eq!(e_ticketer_backend::_get_event(&store, &e.id).unwrap().name, "R");
    assert_eq!(e_ticketer_backend::_get_user(&store, &u.id).unwrap().name, "quin");
    assert_eq!(e_ticketer_backend::_get_ticket(&store, &t.id), Some(t));
    assert!(e_ticketer_backend::_get_event(&store, &u.id).is_none());
    assert!(e_ticketer_backend::_get_user(&store, &e.id).is_none());
    assert!(e_ticketer_backend::_get_ticket(&store, &e.id).is_none());
}

#[test]
fn listings_and_restore_round_trip() {
    let mut store = Store::new();
    let e = store.create_event(event_payload("S"), 1).unwrap();
    let u = store.create_user(user_payload("rex"), 2).unwrap();
    let t = store.create_ticket(TicketPayload { event_id: e.id, user_id: u.id }, 3).unwrap();
    let users = store.get_all_users();
    let tickets = store.get_all_tickets();
    assert_eq!(users.len(), 1);
    assert_eq!(tickets, vec![t]);
    let restored = Store::restore(
        store.peek_next_id(),
        store.get_all_events(),
        users,
        tickets,
    )
    .unwrap();
    assert_eq!(restored.peek_next_id(), 3);
    assert_eq!(restored.get_event(e.id).unwrap().ticket_ids, vec![t.id]);
    assert_eq!(restored.get_user(u.id).unwrap().ticket_ids, vec![t.id]);
    assert_eq!(restored.get_ticket(t.id), Ok(t));
}

#[test]
fn restore_refuses_inconsistent_snapshots() {
    let mut store = Store::new();
    let e = store.create_event(event_payload("T"), 1).unwrap();
    let u = store.create_user(user_payload("sue"), 2).unwrap();
    let t = store.create_ticket(TicketPayload { event_id: e.id, user_id: u.id }, 3).unwrap();
    // a ticket id the allocator has not handed out yet
    assert!(Store::restore(2, store.get_all_events(), store.get_all_users(), vec![]).is_none());
    // two tickets under one id
    assert!(Store::restore(3, vec![], vec![], vec![t, t]).is_none());
    assert!(Store::restore(3, vec![], vec![], vec![t]).is_some());
    let empty = Store::restore(0, vec![], vec![], vec![]).unwrap();
    assert!(empty.get_all_events().is_empty());
}
