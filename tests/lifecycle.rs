use ticket_saga::error::{store_failure, GatewayError, LifecycleError, StoreError};
use ticket_saga::gateway::{
    channel_name, create_reply_outcome, created_reply, deleted_reply_status, deletion_failure, DeletionOutcome,
    interpret_create_reply, interpret_delete_reply, service_delete_step, ServiceDeleteStep,
};
use ticket_saga::guard::{GuardKey, LifecycleGuard};
use ticket_saga::saga::{
    insert_failure_event, next_create, start_create, start_delete, CreateAction, CreateEvent, CreateState,
    DeleteAction, DeleteEvent, DeleteState,
};
use ticket_saga::ticket::{list_readable, Ticket, TicketId};

const ID_TEXT: &str = "0123456789abcdefABCDEF00";

fn ticket(title: &str, content: &str) -> Ticket {
    Ticket::new(title.to_string(), content.to_string())
}

/// A channel service and a store kept in memory, with switches for failures.
struct World {
    channels: Vec<u64>,
    next_channel: u64,
    stored: Vec<(Vec<u8>, Option<u64>)>,
    gateway_down: u32,
    insert_fails: Option<StoreError>,
    insert_uncertain: Option<bool>,
    removal_fails: Option<GatewayError>,
    gateway_delete_calls: u32,
}

impl World {
    fn new(next_channel: u64) -> World {
        World {
            channels: vec![],
            next_channel,
            stored: vec![],
            gateway_down: 0,
            insert_fails: None,
            insert_uncertain: None,
            removal_fails: None,
            gateway_delete_calls: 0,
        }
    }

    fn remove_channel(&mut self, c: u64) -> Result<(), GatewayError> {
        self.gateway_delete_calls += 1;
        if let Some(e) = self.removal_fails {
            return Err(e);
        }
        match self.channels.iter().position(|x| *x == c) {
            Some(i) => {
                self.channels.remove(i);
                Ok(())
            }
            None => Err(GatewayError::ChannelNotFound),
        }
    }

    fn create(&mut self, t: Ticket, key: Option<u64>, guard: &mut LifecycleGuard) -> Result<Ticket, LifecycleError> {
        let (mut saga, mut action) = start_create(t, key, guard)?;
        while !saga.is_finished() {
            let event = match action {
                CreateAction::CreateChannel => {
                    if self.gateway_down > 0 {
                        self.gateway_down -= 1;
                        CreateEvent::ChannelFailed { error: GatewayError::Unavailable }
                    } else {
                        let c = self.next_channel;
                        self.next_channel += 1;
                        self.channels.push(c);
                        CreateEvent::ChannelCreated { channel_id: c }
                    }
                }
                CreateAction::WaitThenRetry { .. } => CreateEvent::RetryDue,
                CreateAction::InsertTicket { channel_id } => match self.insert_fails {
                    Some(cause) => CreateEvent::InsertFailed { cause },
                    None if self.insert_uncertain.is_some() => {
                        if self.insert_uncertain == Some(true) {
                            let stored = saga.ticket_to_store(channel_id);
                            self.stored.push((stored.id.unwrap().bytes.to_vec(), stored.channel_id));
                        }
                        CreateEvent::InsertUncertain
                    }
                    None => {
                        let stored = saga.ticket_to_store(channel_id);
                        self.stored.push((stored.id.unwrap().bytes.to_vec(), stored.channel_id));
                        CreateEvent::Inserted
                    }
                },
                CreateAction::CheckTicket { .. } => {
                    let key = saga.ticket.id.unwrap().bytes.to_vec();
                    if self.stored.iter().any(|(k, _)| *k == key) {
                        CreateEvent::TicketFound
                    } else {
                        CreateEvent::TicketMissing
                    }
                }
                CreateAction::DeleteChannel { channel_id } => match self.remove_channel(channel_id) {
                    Ok(()) => CreateEvent::ChannelRemoved,
                    Err(error) => CreateEvent::ChannelRemovalFailed { error },
                },
                CreateAction::Finish => break,
            };
            action = saga.step(event);
        }
        saga.finish(guard)
    }

    fn delete(&mut self, id_text: &str, guard: &mut LifecycleGuard) -> Result<(), LifecycleError> {
        let (mut saga, mut action) = start_delete(id_text, guard)?;
        let key = saga.id.bytes.to_vec();
        while !saga.is_finished() {
            let event = match action {
                DeleteAction::FetchTicket => match self.stored.iter().find(|(k, _)| *k == key) {
                    Some((_, c)) => DeleteEvent::Found { channel_id: *c },
                    None => DeleteEvent::Missing,
                },
                DeleteAction::DeleteChannel { channel_id } => match self.remove_channel(channel_id) {
                    Ok(()) => DeleteEvent::ChannelRemoved,
                    Err(error) => DeleteEvent::ChannelRemovalFailed { error },
                },
                DeleteAction::DeleteTicket => {
                    let before = self.stored.len();
                    self.stored.retain(|(k, _)| *k != key);
                    DeleteEvent::TicketRemoved { count: (before - self.stored.len()) as u64 }
                }
                DeleteAction::Finish => break,
            };
            action = saga.step(event);
        }
        saga.finish(guard)
    }

    fn every_stored_ticket_has_its_channel(&self) -> bool {
        self.stored.iter().all(|(_, c)| match c {
            Some(c) => self.channels.contains(c),
            None => false,
        })
    }
}

fn hex(bytes: &[u8]) -> String {
    bytes.iter().map(|b| format!("{:02x}", b)).collect()
}

#[test]
fn create_billing_issue_gets_channel_42() {
    let mut world = World::new(42);
    let mut guard = LifecycleGuard::new();
    let t = world.create(ticket("Billing Issue", "customer cannot pay"), None, &mut guard).unwrap();
    assert_eq!(t.channel_id, Some(42));
    assert_eq!(t.title, "Billing Issue");
    assert_eq!(t.content, "customer cannot pay");
    assert!(t.id.is_some());
    assert_eq!(world.channels, vec![42]);
    assert!(world.every_stored_ticket_has_its_channel());
}

#[test]
fn delete_proceeds_when_channel_already_gone() {
    let mut world = World::new(42);
    let mut guard = LifecycleGuard::new();
    let t = world.create(ticket("Billing Issue", "customer cannot pay"), None, &mut guard).unwrap();
    world.channels.clear();
    let id = hex(&t.id.unwrap().bytes);
    assert_eq!(world.delete(&id, &mut guard), Ok(()));
    assert!(world.stored.is_empty());
}

#[test]
fn delete_twice_gives_success_then_not_found() {
    let mut world = World::new(7);
    let mut guard = LifecycleGuard::new();
    let t = world.create(ticket("Login", "cannot log in"), None, &mut guard).unwrap();
    let id = hex(&t.id.unwrap().bytes);
    assert_eq!(world.delete(&id, &mut guard), Ok(()));
    assert_eq!(world.gateway_delete_calls, 1);
    assert_eq!(world.delete(&id, &mut guard), Err(LifecycleError::NotFound));
    assert_eq!(world.gateway_delete_calls, 1);
    assert!(world.channels.is_empty());
}

#[test]
fn refused_insert_removes_the_channel() {
    let mut world = World::new(5);
    world.insert_fails = Some(StoreError::Unavailable);
    let mut guard = LifecycleGuard::new();
    let r = world.create(ticket("A B", "c"), None, &mut guard);
    assert_eq!(
        r.unwrap_err(),
        LifecycleError::InsertFailed { cause: StoreError::Unavailable, channel_id: 5, compensated: true }
    );
    assert!(world.channels.is_empty());
    assert!(world.stored.is_empty());
}

#[test]
fn refused_insert_with_failed_removal_flags_orphan() {
    let mut world = World::new(9);
    world.insert_fails = Some(StoreError::Conflict);
    world.removal_fails = Some(GatewayError::Unavailable);
    let mut guard = LifecycleGuard::new();
    let r = world.create(ticket("A B", "c"), None, &mut guard);
    assert_eq!(
        r.unwrap_err(),
        LifecycleError::InsertFailed { cause: StoreError::Conflict, channel_id: 9, compensated: false }
    );
    assert_eq!(world.channels, vec![9]);
    assert!(world.stored.is_empty());
}

#[test]
fn failed_channel_removal_keeps_ticket() {
    let mut world = World::new(11);
    let mut guard = LifecycleGuard::new();
    let t = world.create(ticket("X", "y"), None, &mut guard).unwrap();
    world.removal_fails = Some(GatewayError::Unavailable);
    let id = hex(&t.id.unwrap().bytes);
    assert_eq!(world.delete(&id, &mut guard), Err(LifecycleError::Gateway(GatewayError::Unavailable)));
    assert_eq!(world.stored.len(), 1);
    assert!(world.every_stored_ticket_has_its_channel());
    assert!(!guard.is_active(&GuardKey::Ticket(t.id.unwrap())));
}

#[test]
fn same_key_creates_are_exclusive() {
    let mut guard = LifecycleGuard::new();
    let first = start_create(ticket("One", ""), Some(77), &mut guard);
    assert!(first.is_ok());
    let second = start_create(ticket("One", ""), Some(77), &mut guard);
    assert_eq!(second.err(), Some(LifecycleError::AlreadyInProgress));
    let (mut saga, _) = first.unwrap();
    saga.step(CreateEvent::ChannelCreated { channel_id: 3 });
    assert_eq!(saga.step(CreateEvent::Inserted), CreateAction::Finish);
    assert_eq!(saga.state, CreateState::Done { channel_id: 3 });
    assert!(saga.finish(&mut guard).is_ok());
    assert!(start_create(ticket("One", ""), Some(77), &mut guard).is_ok());
}

#[test]
fn different_key_creates_both_proceed() {
    let mut guard = LifecycleGuard::new();
    assert!(start_create(ticket("One", ""), Some(1), &mut guard).is_ok());
    assert!(start_create(ticket("Two", ""), Some(2), &mut guard).is_ok());
    assert!(guard.is_active(&GuardKey::Request(1)));
    assert!(guard.is_active(&GuardKey::Request(2)));
}

#[test]
fn unkeyed_creates_are_not_deduplicated() {
    let mut guard = LifecycleGuard::new();
    assert!(start_create(ticket("One", ""), None, &mut guard).is_ok());
    assert!(start_create(ticket("One", ""), None, &mut guard).is_ok());
}

#[test]
fn empty_title_is_invalid_input() {
    let mut guard = LifecycleGuard::new();
    let r = start_create(ticket("", "content"), Some(4), &mut guard);
    assert_eq!(r.err(), Some(LifecycleError::InvalidInput));
    assert!(!guard.is_active(&GuardKey::Request(4)));
}

#[test]
fn same_ticket_deletes_are_exclusive() {
    let mut guard = LifecycleGuard::new();
    let first = start_delete(ID_TEXT, &mut guard);
    assert!(first.is_ok());
    assert_eq!(start_delete(ID_TEXT, &mut guard).err(), Some(LifecycleError::AlreadyInProgress));
    assert!(start_delete("0123456789abcdefabcdef01", &mut guard).is_ok());
}

#[test]
fn malformed_delete_id_is_invalid_input() {
    let mut guard = LifecycleGuard::new();
    assert_eq!(start_delete("not-an-id", &mut guard).err(), Some(LifecycleError::InvalidInput));
    assert_eq!(start_delete("0123456789abcdefabcdef0", &mut guard).err(), Some(LifecycleError::InvalidInput));
    assert_eq!(start_delete("0123456789abcdefabcdef0g", &mut guard).err(), Some(LifecycleError::InvalidInput));
}

#[test]
fn unavailable_gateway_is_retried_with_backoff() {
    let mut world = World::new(20);
    world.gateway_down = 2;
    let mut guard = LifecycleGuard::new();
    let t = world.create(ticket("Retry Me", ""), None, &mut guard).unwrap();
    assert_eq!(t.channel_id, Some(20));

    let s = CreateState::CreatingChannel { attempt: 1 };
    let (s, a) = next_create(s, CreateEvent::ChannelFailed { error: GatewayError::Unavailable });
    assert_eq!(a, CreateAction::WaitThenRetry { delay_ms: 100 });
    let (s, a) = next_create(s, CreateEvent::RetryDue);
    assert_eq!(a, CreateAction::CreateChannel);
    let (s, a) = next_create(s, CreateEvent::ChannelFailed { error: GatewayError::Unavailable });
    assert_eq!(a, CreateAction::WaitThenRetry { delay_ms: 200 });
    let (s, _) = next_create(s, CreateEvent::RetryDue);
    assert_eq!(s, CreateState::CreatingChannel { attempt: 3 });
    let (s, a) = next_create(s, CreateEvent::ChannelFailed { error: GatewayError::Unavailable });
    assert_eq!(a, CreateAction::Finish);
    assert_eq!(s, CreateState::Failed { error: LifecycleError::Gateway(GatewayError::Unavailable) });
}

#[test]
fn gateway_down_three_times_fails_without_ticket() {
    let mut world = World::new(20);
    world.gateway_down = 3;
    let mut guard = LifecycleGuard::new();
    let r = world.create(ticket("Retry Me", ""), Some(8), &mut guard);
    assert_eq!(r.err(), Some(LifecycleError::Gateway(GatewayError::Unavailable)));
    assert!(world.stored.is_empty());
    assert!(world.channels.is_empty());
    assert!(!guard.is_active(&GuardKey::Request(8)));
}

#[test]
fn rejected_create_is_not_retried() {
    let (s, a) = next_create(
        CreateState::CreatingChannel { attempt: 1 },
        CreateEvent::ChannelFailed { error: GatewayError::Rejected },
    );
    assert_eq!(a, CreateAction::Finish);
    assert_eq!(s, CreateState::Failed { error: LifecycleError::Gateway(GatewayError::Rejected) });
    let (s, _) = next_create(
        CreateState::CreatingChannel { attempt: 1 },
        CreateEvent::ChannelFailed { error: GatewayError::ProtocolError },
    );
    assert_eq!(s, CreateState::Failed { error: LifecycleError::Gateway(GatewayError::ProtocolError) });
}

#[test]
fn unexpected_event_repeats_pending_action() {
    let s = CreateState::PersistingTicket { channel_id: 6 };
    assert_eq!(next_create(s, CreateEvent::RetryDue), (s, CreateAction::InsertTicket { channel_id: 6 }));
}

#[test]
fn fetch_failure_is_store_error() {
    let mut guard = LifecycleGuard::new();
    let (mut saga, a) = start_delete(ID_TEXT, &mut guard).unwrap();
    assert_eq!(a, DeleteAction::FetchTicket);
    assert_eq!(saga.step(DeleteEvent::FetchFailed { cause: StoreError::Unavailable }), DeleteAction::Finish);
    assert_eq!(saga.state, DeleteState::Failed { error: LifecycleError::Store(StoreError::Unavailable) });
    assert_eq!(saga.finish(&mut guard), Err(LifecycleError::Store(StoreError::Unavailable)));
    assert!(start_delete(ID_TEXT, &mut guard).is_ok());
}

#[test]
fn ticket_removal_of_zero_counts_as_success() {
    let mut guard = LifecycleGuard::new();
    let (mut saga, _) = start_delete(ID_TEXT, &mut guard).unwrap();
    assert_eq!(saga.step(DeleteEvent::Found { channel_id: Some(1) }), DeleteAction::DeleteChannel { channel_id: 1 });
    assert_eq!(saga.step(DeleteEvent::ChannelRemoved), DeleteAction::DeleteTicket);
    assert_eq!(saga.step(DeleteEvent::TicketRemoved { count: 0 }), DeleteAction::Finish);
    assert_eq!(saga.finish(&mut guard), Ok(()));
}

#[test]
fn ticket_removal_failure_is_store_error() {
    let mut guard = LifecycleGuard::new();
    let (mut saga, _) = start_delete(ID_TEXT, &mut guard).unwrap();
    assert_eq!(saga.step(DeleteEvent::Found { channel_id: None }), DeleteAction::DeleteTicket);
    saga.step(DeleteEvent::TicketRemovalFailed { cause: StoreError::Conflict });
    assert_eq!(saga.finish(&mut guard), Err(LifecycleError::Store(StoreError::Conflict)));
}

#[test]
fn ticket_id_parses_hex_text() {
    let id = TicketId::parse(ID_TEXT).unwrap();
    assert_eq!(id.bytes, [0x01, 0x23, 0x45, 0x67, 0x89, 0xab, 0xcd, 0xef, 0xab, 0xcd, 0xef, 0x00]);
    assert!(TicketId::parse("").is_none());
    assert!(TicketId::parse("0123456789abcdefabcdef0011").is_none());
    assert!(id.same(&TicketId::parse("0123456789ABCDEFabcdef00").unwrap()));
    assert!(!id.same(&TicketId::parse("0123456789abcdefabcdef01").unwrap()));
}

#[test]
fn uncertain_insert_that_landed_is_done() {
    let mut world = World::new(30);
    world.insert_uncertain = Some(true);
    let mut guard = LifecycleGuard::new();
    let t = world.create(ticket("Lost Reply", "x"), None, &mut guard).unwrap();
    assert_eq!(t.channel_id, Some(30));
    assert_eq!(world.channels, vec![30]);
    assert_eq!(world.stored.len(), 1);
    assert!(world.every_stored_ticket_has_its_channel());
}

#[test]
fn uncertain_insert_that_did_not_land_is_compensated() {
    let mut world = World::new(31);
    world.insert_uncertain = Some(false);
    let mut guard = LifecycleGuard::new();
    let r = world.create(ticket("Lost Reply", "x"), None, &mut guard);
    assert_eq!(
        r.unwrap_err(),
        LifecycleError::InsertFailed { cause: StoreError::Unavailable, channel_id: 31, compensated: true }
    );
    assert!(world.channels.is_empty());
    assert!(world.stored.is_empty());
}

#[test]
fn failed_recheck_keeps_channel_and_flags_it() {
    let (s, a) = next_create(CreateState::PersistingTicket { channel_id: 4 }, CreateEvent::InsertUncertain);
    assert_eq!(a, CreateAction::CheckTicket { channel_id: 4 });
    let (s, a) = next_create(s, CreateEvent::CheckFailed);
    assert_eq!(a, CreateAction::Finish);
    assert_eq!(
        s,
        CreateState::Failed {
            error: LifecycleError::InsertFailed { cause: StoreError::Unavailable, channel_id: 4, compensated: false }
        }
    );
}

#[test]
fn insert_failures_are_classified() {
    assert_eq!(insert_failure_event(Some(11000), true), CreateEvent::InsertFailed { cause: StoreError::Conflict });
    assert_eq!(insert_failure_event(Some(5), true), CreateEvent::InsertFailed { cause: StoreError::Unavailable });
    assert_eq!(insert_failure_event(None, false), CreateEvent::InsertFailed { cause: StoreError::Unavailable });
    assert_eq!(insert_failure_event(None, true), CreateEvent::InsertUncertain);
}

#[test]
fn create_ignores_a_supplied_id() {
    let mut guard = LifecycleGuard::new();
    let mut t = ticket("T", "c");
    t.id = TicketId::parse(ID_TEXT);
    t.channel_id = Some(99);
    let (saga, _) = start_create(t, None, &mut guard).unwrap();
    assert!(!saga.ticket.id.unwrap().same(&TicketId::parse(ID_TEXT).unwrap()));
    assert_eq!(saga.ticket.channel_id, None);
}

#[test]
fn with_id_keeps_or_assigns() {
    let t = ticket("T", "c").with_id();
    assert!(t.id.is_some());
    let given = TicketId::parse(ID_TEXT).unwrap();
    let mut u = ticket("T", "c");
    u.id = Some(given);
    assert_eq!(u.with_id().id.unwrap().bytes, given.bytes);
}

#[test]
fn channel_name_replaces_spaces() {
    assert_eq!(channel_name("Billing Issue"), "Billing-Issue");
    assert_eq!(channel_name(" a  b "), "-a--b-");
    assert_eq!(channel_name("none"), "none");
    assert_eq!(channel_name(""), "");
    assert_eq!(channel_name("a-b"), channel_name("a b"));
    assert_eq!(channel_name("a\tb\nc"), "a-b-c");
    assert_eq!(channel_name("a\u{3000}b\u{a0}c"), "a-b-c");
}

#[test]
fn create_reply_is_classified() {
    assert_eq!(interpret_create_reply(200, "{\"channel_id\": 42}"), Ok(42));
    assert_eq!(interpret_create_reply(200, "{\"channel_id\": 18446744073709551615}"), Ok(u64::MAX));
    assert_eq!(interpret_create_reply(200, "{\"channel_id\": \"42\"}"), Err(GatewayError::ProtocolError));
    assert_eq!(interpret_create_reply(200, "{\"channel_id\": -1}"), Err(GatewayError::ProtocolError));
    assert_eq!(interpret_create_reply(200, "{}"), Err(GatewayError::ProtocolError));
    assert_eq!(interpret_create_reply(200, "not json"), Err(GatewayError::ProtocolError));
    assert_eq!(interpret_create_reply(500, "{\"channel_id\": 42}"), Err(GatewayError::Rejected));
    assert_eq!(create_reply_outcome(200, Some(3)), Ok(3));
    assert_eq!(create_reply_outcome(404, Some(3)), Err(GatewayError::Rejected));
}

#[test]
fn delete_reply_is_classified() {
    assert_eq!(interpret_delete_reply(200), Ok(()));
    assert_eq!(interpret_delete_reply(404), Err(GatewayError::ChannelNotFound));
    assert_eq!(interpret_delete_reply(400), Err(GatewayError::ProtocolError));
    assert_eq!(interpret_delete_reply(503), Err(GatewayError::Unavailable));
}

#[test]
fn service_replies() {
    assert_eq!(service_delete_step(Some(5)), ServiceDeleteStep::DeleteChannel { channel_id: 5 });
    assert_eq!(service_delete_step(None), ServiceDeleteStep::Reply { status: 400 });
    assert_eq!(deleted_reply_status(DeletionOutcome::Deleted), 200);
    assert_eq!(deleted_reply_status(DeletionOutcome::UnknownChannel), 404);
    assert_eq!(deleted_reply_status(DeletionOutcome::Failed), 502);
    assert_eq!(
        interpret_delete_reply(deleted_reply_status(DeletionOutcome::UnknownChannel)),
        Err(GatewayError::ChannelNotFound)
    );
    assert_eq!(
        interpret_delete_reply(deleted_reply_status(DeletionOutcome::Failed)),
        Err(GatewayError::Unavailable)
    );
    assert_eq!(deletion_failure(Some(10003)), DeletionOutcome::UnknownChannel);
    assert_eq!(deletion_failure(Some(50013)), DeletionOutcome::Failed);
    assert_eq!(deletion_failure(None), DeletionOutcome::Failed);
    assert_eq!(created_reply(Some(42)), (200, Some(42)));
    assert_eq!(created_reply(None), (500, None));
}

#[test]
fn listing_skips_unreadable_documents() {
    let docs = vec![Some(ticket("a", "1")), None, Some(ticket("b", "2")), None];
    let listed = list_readable(docs);
    let titles: Vec<&str> = listed.iter().map(|t| t.title.as_str()).collect();
    assert_eq!(titles, vec!["a", "b"]);
    assert!(list_readable(vec![]).is_empty());
    assert!(list_readable(vec![None, None]).is_empty());
}

#[test]
fn store_failures_are_classified() {
    assert_eq!(store_failure(Some(11000)), StoreError::Conflict);
    assert_eq!(store_failure(Some(2)), StoreError::Unavailable);
    assert_eq!(store_failure(None), StoreError::Unavailable);
}

#[test]
fn error_statuses() {
    assert_eq!(LifecycleError::InvalidInput.status_code(), 400);
    assert_eq!(LifecycleError::NotFound.status_code(), 404);
    assert_eq!(LifecycleError::AlreadyInProgress.status_code(), 409);
    assert_eq!(LifecycleError::Gateway(GatewayError::Unavailable).status_code(), 503);
    assert_eq!(LifecycleError::Gateway(GatewayError::Rejected).status_code(), 502);
    assert_eq!(LifecycleError::Store(StoreError::Conflict).status_code(), 409);
    assert_eq!(
        LifecycleError::InsertFailed { cause: StoreError::Unavailable, channel_id: 1, compensated: false }.status_code(),
        500
    );
}
