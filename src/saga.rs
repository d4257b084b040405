use vstd::prelude::*;
use crate::error::{store_failure, store_failure_of, GatewayError, LifecycleError, StoreError};
use crate::gateway::{channel_name, channel_name_of};
use crate::guard::{admits, GuardKey, KeyView, LifecycleGuard};
use crate::ticket::{id_text_bytes, is_id_text, Ticket, TicketId};

verus! {

/// How many times a create request is sent while the channel service is unavailable.
pub const MAX_CREATE_ATTEMPTS: u32 = 3;

/// The wait after the first unavailable attempt; it doubles after each further one.
pub const BASE_BACKOFF_MS: u64 = 100;

/// The wait after failed attempt number `attempt`.
pub open spec fn backoff_ms(attempt: nat) -> nat
    decreases attempt,
{
    if attempt <= 1 {
        BASE_BACKOFF_MS as nat
    } else {
        2 * backoff_ms((attempt - 1) as nat)
    }
}

fn backoff_delay(attempt: u32) -> (r: u64)
    requires
        attempt < MAX_CREATE_ATTEMPTS,
    ensures
        r == backoff_ms(attempt as nat),
{
    let mut d: u64 = BASE_BACKOFF_MS;
    let mut i: u32 = 1;
    while i < attempt
        invariant
            1 <= i <= 2,
            attempt < MAX_CREATE_ATTEMPTS,
            i <= attempt || i == 1,
            d == backoff_ms(i as nat),
            d <= 100 * (i as u64),
        decreases attempt - i,
    {
        d = d * 2;
        i = i + 1;
    }
    assert(backoff_ms(0) == backoff_ms(1));
    d
}

/// Where a create operation stands.
#[derive(Clone, Copy, Debug, PartialEq, Eq, Structural)]
pub enum CreateState {
    /// Waiting for the channel service's answer to attempt number `attempt`.
    CreatingChannel { attempt: u32 },
    /// Waiting `delay_ms` before attempt number `attempt`.
    WaitingToRetry { attempt: u32, delay_ms: u64 },
    /// The channel exists; waiting for the store to take the ticket.
    PersistingTicket { channel_id: u64 },
    /// The store's answer to the insert was lost; waiting to learn whether the ticket
    /// was stored.
    Confirming { channel_id: u64 },
    /// The ticket was not stored; waiting for the channel's removal.
    Compensating { channel_id: u64, cause: StoreError },
    /// The ticket is stored with its channel.
    Done { channel_id: u64 },
    /// The operation ended without a stored ticket.
    Failed { error: LifecycleError },
}

/// What happened to the last action of a create operation.
#[derive(Clone, Copy, Debug, PartialEq, Eq, Structural)]
pub enum CreateEvent {
    ChannelCreated { channel_id: u64 },
    ChannelFailed { error: GatewayError },
    RetryDue,
    Inserted,
    /// The insert did not take effect.
    InsertFailed { cause: StoreError },
    /// The insert was sent, but whether it took effect is unknown.
    InsertUncertain,
    /// The re-read found the ticket stored.
    TicketFound,
    /// The re-read found no such ticket.
    TicketMissing,
    /// The re-read failed.
    CheckFailed,
    ChannelRemoved,
    ChannelRemovalFailed { error: GatewayError },
}

/// What a create operation asks its runner to do next.
#[derive(Clone, Copy, Debug, PartialEq, Eq, Structural)]
pub enum CreateAction {
    /// Ask the channel service for the ticket's channel.
    CreateChannel,
    /// Wait, then report `RetryDue`.
    WaitThenRetry { delay_ms: u64 },
    /// Store the ticket, carrying this channel.
    InsertTicket { channel_id: u64 },
    /// Read the ticket back from the store, to learn whether the insert took effect.
    CheckTicket { channel_id: u64 },
    /// Remove this channel at the channel service.
    DeleteChannel { channel_id: u64 },
    /// The operation is over.
    Finish,
}

/// The action that a create operation in state `s` is waiting on.
pub open spec fn create_pending(s: CreateState) -> CreateAction {
    match s {
        CreateState::CreatingChannel { .. } => CreateAction::CreateChannel,
        CreateState::WaitingToRetry { delay_ms, .. } => CreateAction::WaitThenRetry { delay_ms },
        CreateState::PersistingTicket { channel_id } => CreateAction::InsertTicket { channel_id },
        CreateState::Confirming { channel_id } => CreateAction::CheckTicket { channel_id },
        CreateState::Compensating { channel_id, .. } => CreateAction::DeleteChannel { channel_id },
        _ => CreateAction::Finish,
    }
}

/// The failure reported after a refused insert, given whether the channel is gone.
pub open spec fn insert_failure(cause: StoreError, channel_id: u64, compensated: bool) -> CreateState {
    CreateState::Failed { error: LifecycleError::InsertFailed { cause, channel_id, compensated } }
}

/// One step of a create operation: the next state and the next action.
/// An event that does not answer the pending action changes nothing.
pub open spec fn create_transition(s: CreateState, e: CreateEvent) -> (CreateState, CreateAction) {
    match s {
        CreateState::CreatingChannel { attempt } => match e {
            CreateEvent::ChannelCreated { channel_id } => (
                CreateState::PersistingTicket { channel_id },
                CreateAction::InsertTicket { channel_id },
            ),
            CreateEvent::ChannelFailed { error } => if error == GatewayError::Unavailable
                && attempt < MAX_CREATE_ATTEMPTS {
                let d = backoff_ms(attempt as nat) as u64;
                (
                    CreateState::WaitingToRetry { attempt: (attempt + 1) as u32, delay_ms: d },
                    CreateAction::WaitThenRetry { delay_ms: d },
                )
            } else {
                (CreateState::Failed { error: LifecycleError::Gateway(error) }, CreateAction::Finish)
            },
            _ => (s, create_pending(s)),
        },
        CreateState::WaitingToRetry { attempt, .. } => match e {
            CreateEvent::RetryDue => (
                CreateState::CreatingChannel { attempt },
                CreateAction::CreateChannel,
            ),
            _ => (s, create_pending(s)),
        },
        CreateState::PersistingTicket { channel_id } => match e {
            CreateEvent::Inserted => (CreateState::Done { channel_id }, CreateAction::Finish),
            CreateEvent::InsertFailed { cause } => (
                CreateState::Compensating { channel_id, cause },
                CreateAction::DeleteChannel { channel_id },
            ),
            CreateEvent::InsertUncertain => (
                CreateState::Confirming { channel_id },
                CreateAction::CheckTicket { channel_id },
            ),
            _ => (s, create_pending(s)),
        },
        CreateState::Confirming { channel_id } => match e {
            CreateEvent::TicketFound => (CreateState::Done { channel_id }, CreateAction::Finish),
            CreateEvent::TicketMissing => (
                CreateState::Compensating { channel_id, cause: StoreError::Unavailable },
                CreateAction::DeleteChannel { channel_id },
            ),
            CreateEvent::CheckFailed => (
                insert_failure(StoreError::Unavailable, channel_id, false),
                CreateAction::Finish,
            ),
            _ => (s, create_pending(s)),
        },
        CreateState::Compensating { channel_id, cause } => match e {
            CreateEvent::ChannelRemoved => (
                insert_failure(cause, channel_id, true),
                CreateAction::Finish,
            ),
            CreateEvent::ChannelRemovalFailed { error } => (
                insert_failure(cause, channel_id, error == GatewayError::ChannelNotFound),
                CreateAction::Finish,
            ),
            _ => (s, create_pending(s)),
        },
        _ => (s, CreateAction::Finish),
    }
}

fn create_pending_action(s: CreateState) -> (r: CreateAction)
    ensures
        r == create_pending(s),
{
    match s {
        CreateState::CreatingChannel { .. } => CreateAction::CreateChannel,
        CreateState::WaitingToRetry { delay_ms, .. } => CreateAction::WaitThenRetry { delay_ms },
        CreateState::PersistingTicket { channel_id } => CreateAction::InsertTicket { channel_id },
        CreateState::Confirming { channel_id } => CreateAction::CheckTicket { channel_id },
        CreateState::Compensating { channel_id, .. } => CreateAction::DeleteChannel { channel_id },
        _ => CreateAction::Finish,
    }
}

/// Computes one step of a create operation.
pub fn next_create(s: CreateState, e: CreateEvent) -> (r: (CreateState, CreateAction))
    ensures
        r == create_transition(s, e),
{
    match s {
        CreateState::CreatingChannel { attempt } => match e {
            CreateEvent::ChannelCreated { channel_id } => (
                CreateState::PersistingTicket { channel_id },
                CreateAction::InsertTicket { channel_id },
            ),
            CreateEvent::ChannelFailed { error } => {
                if error == GatewayError::Unavailable && attempt < MAX_CREATE_ATTEMPTS {
                    let d = backoff_delay(attempt);
                    (
                        CreateState::WaitingToRetry { attempt: attempt + 1, delay_ms: d },
                        CreateAction::WaitThenRetry { delay_ms: d },
                    )
                } else {
                    (
                        CreateState::Failed { error: LifecycleError::Gateway(error) },
                        CreateAction::Finish,
                    )
                }
            },
            _ => (s, create_pending_action(s)),
        },
        CreateState::WaitingToRetry { attempt, .. } => match e {
            CreateEvent::RetryDue => (
                CreateState::CreatingChannel { attempt },
                CreateAction::CreateChannel,
            ),
            _ => (s, create_pending_action(s)),
        },
        CreateState::PersistingTicket { channel_id } => match e {
            CreateEvent::Inserted => (CreateState::Done { channel_id }, CreateAction::Finish),
            CreateEvent::InsertFailed { cause } => (
                CreateState::Compensating { channel_id, cause },
                CreateAction::DeleteChannel { channel_id },
            ),
            CreateEvent::InsertUncertain => (
                CreateState::Confirming { channel_id },
                CreateAction::CheckTicket { channel_id },
            ),
            _ => (s, create_pending_action(s)),
        },
        CreateState::Confirming { channel_id } => match e {
            CreateEvent::TicketFound => (CreateState::Done { channel_id }, CreateAction::Finish),
            CreateEvent::TicketMissing => (
                CreateState::Compensating { channel_id, cause: StoreError::Unavailable },
                CreateAction::DeleteChannel { channel_id },
            ),
            CreateEvent::CheckFailed => (
                CreateState::Failed {
                    error: LifecycleError::InsertFailed {
                        cause: StoreError::Unavailable,
                        channel_id,
                        compensated: false,
                    },
                },
                CreateAction::Finish,
            ),
            _ => (s, create_pending_action(s)),
        },
        CreateState::Compensating { channel_id, cause } => match e {
            CreateEvent::ChannelRemoved => (
                CreateState::Failed {
                    error: LifecycleError::InsertFailed { cause, channel_id, compensated: true },
                },
                CreateAction::Finish,
            ),
            CreateEvent::ChannelRemovalFailed { error } => (
                CreateState::Failed {
                    error: LifecycleError::InsertFailed {
                        cause,
                        channel_id,
                        compensated: error == GatewayError::ChannelNotFound,
                    },
                },
                CreateAction::Finish,
            ),
            _ => (s, create_pending_action(s)),
        },
        _ => (s, CreateAction::Finish),
    }
}

/// The event for a failed insert: a write refused by the store, or one that never
/// reached it, did not take effect; any other failure leaves the outcome unknown.
pub fn insert_failure_event(write_code: Option<i32>, sent: bool) -> (r: CreateEvent)
    ensures
        write_code is Some ==> r == (CreateEvent::InsertFailed {
            cause: store_failure_of(write_code),
        }),
        write_code is None && !sent ==> r == (CreateEvent::InsertFailed {
            cause: StoreError::Unavailable,
        }),
        write_code is None && sent ==> r == CreateEvent::InsertUncertain,
{
    if write_code.is_some() {
        CreateEvent::InsertFailed { cause: store_failure(write_code) }
    } else if !sent {
        CreateEvent::InsertFailed { cause: StoreError::Unavailable }
    } else {
        CreateEvent::InsertUncertain
    }
}

/// A create operation in flight: the ticket being created, the idempotency key it
/// holds in the guard, if any, and where it stands.
pub struct CreateSaga {
    pub ticket: Ticket,
    pub key: Option<u64>,
    pub state: CreateState,
}

/// Whether a create operation has reached its end.
pub open spec fn create_finished(s: CreateState) -> bool {
    s is Done || s is Failed
}

/// Begins a create operation: checks the input, claims the idempotency key, gives
/// the ticket a newly generated id (any id in the input is ignored) and gives the
/// first action. Without a key the operation is not deduplicated.
pub fn start_create(ticket: Ticket, key: Option<u64>, guard: &mut LifecycleGuard) -> (r: Result<
    (CreateSaga, CreateAction),
    LifecycleError,
>)
    requires
        old(guard).wf(),
    ensures
        final(guard).wf(),
        ticket.title@.len() == 0 ==> r == Err::<(CreateSaga, CreateAction), LifecycleError>(
            LifecycleError::InvalidInput,
        ) && final(guard)@ == old(guard)@,
        ticket.title@.len() > 0 && key is Some && !admits(old(guard)@, KeyView::Request(key->0))
            ==> r == Err::<(CreateSaga, CreateAction), LifecycleError>(
            LifecycleError::AlreadyInProgress,
        ) && final(guard)@ == old(guard)@,
        ticket.title@.len() > 0 && key is Some && admits(old(guard)@, KeyView::Request(key->0))
            ==> r is Ok && final(guard)@ == old(guard)@.insert(KeyView::Request(key->0)),
        ticket.title@.len() > 0 && key is None ==> r is Ok && final(guard)@ == old(guard)@,
        r is Ok ==> ({
            let (saga, action) = r->Ok_0;
            &&& saga.state == CreateState::CreatingChannel { attempt: 1 }
            &&& action == CreateAction::CreateChannel
            &&& saga.key == key
            &&& saga.ticket.id is Some
            &&& saga.ticket.title == ticket.title
            &&& saga.ticket.content == ticket.content
            &&& saga.ticket.channel_id is None
        }),
{
    if ticket.title.as_str().is_empty() {
        return Err(LifecycleError::InvalidInput);
    }
    match key {
        Some(k) => {
            match guard.acquire(GuardKey::Request(k)) {
                Ok(()) => {},
                Err(e) => {
                    return Err(e);
                },
            }
        },
        None => {},
    }
    let t = Ticket {
        id: None,
        title: ticket.title,
        content: ticket.content,
        channel_id: None,
    }.with_id();
    let saga = CreateSaga {
        ticket: Ticket { id: t.id, title: t.title, content: t.content, channel_id: None },
        key,
        state: CreateState::CreatingChannel { attempt: 1 },
    };
    Ok((saga, CreateAction::CreateChannel))
}

impl CreateSaga {
    /// Feeds the outcome of the last action and returns the next one.
    pub fn step(&mut self, e: CreateEvent) -> (a: CreateAction)
        ensures
            (final(self).state, a) == create_transition(old(self).state, e),
            final(self).ticket == old(self).ticket,
            final(self).key == old(self).key,
    {
        let (s, a) = next_create(self.state, e);
        self.state = s;
        a
    }

    /// Whether the operation has reached its end.
    pub fn is_finished(&self) -> (r: bool)
        ensures
            r == create_finished(self.state),
    {
        match self.state {
            CreateState::Done { .. } | CreateState::Failed { .. } => true,
            _ => false,
        }
    }

    /// The name of the channel to create for the ticket.
    pub fn channel_name(&self) -> (r: String)
        ensures
            r@ == channel_name_of(self.ticket.title@),
    {
        channel_name(self.ticket.title.as_str())
    }

    /// The ticket as it is stored: with the channel that was created for it.
    pub fn ticket_to_store(&self, channel_id: u64) -> (r: Ticket)
        ensures
            r.id == self.ticket.id,
            r.title == self.ticket.title,
            r.content == self.ticket.content,
            r.channel_id == Some(channel_id),
    {
        Ticket {
            id: self.ticket.id,
            title: self.ticket.title.clone(),
            content: self.ticket.content.clone(),
            channel_id: Some(channel_id),
        }
    }

    /// Ends the operation: gives up its key and returns the stored ticket or the failure.
    pub fn finish(self, guard: &mut LifecycleGuard) -> (r: Result<Ticket, LifecycleError>)
        requires
            old(guard).wf(),
            create_finished(self.state),
        ensures
            final(guard).wf(),
            self.key is Some ==> final(guard)@ == old(guard)@.remove(KeyView::Request(self.key->0)),
            self.key is None ==> final(guard)@ == old(guard)@,
            self.state is Done ==> r is Ok && ({
                let t = r->Ok_0;
                &&& t.id == self.ticket.id
                &&& t.title == self.ticket.title
                &&& t.content == self.ticket.content
                &&& t.channel_id == Some(self.state->Done_channel_id)
            }),
            self.state is Failed ==> r == Err::<Ticket, LifecycleError>(self.state->Failed_error),
    {
        match self.key {
            Some(k) => guard.release(&GuardKey::Request(k)),
            None => {},
        }
        match self.state {
            CreateState::Done { channel_id } => Ok(
                Ticket {
                    id: self.ticket.id,
                    title: self.ticket.title,
                    content: self.ticket.content,
                    channel_id: Some(channel_id),
                },
            ),
            CreateState::Failed { error } => Err(error),
            _ => Err(LifecycleError::InvalidInput),
        }
    }
}

/// Where a delete operation stands.
#[derive(Clone, Copy, Debug, PartialEq, Eq, Structural)]
pub enum DeleteState {
    /// Waiting for the stored ticket.
    Fetching,
    /// Waiting for the removal of the ticket's channel.
    DeletingChannel { channel_id: u64 },
    /// The channel is gone; waiting for the ticket's removal.
    DeletingTicket,
    /// The ticket and its channel are gone.
    Done,
    /// The operation ended early.
    Failed { error: LifecycleError },
}

/// What happened to the last action of a delete operation.
#[derive(Clone, Copy, Debug, PartialEq, Eq, Structural)]
pub enum DeleteEvent {
    /// The ticket is stored, with this channel.
    Found { channel_id: Option<u64> },
    /// No ticket is stored under the id.
    Missing,
    FetchFailed { cause: StoreError },
    ChannelRemoved,
    ChannelRemovalFailed { error: GatewayError },
    /// The store removed `count` tickets (0 when another removal came first).
    TicketRemoved { count: u64 },
    TicketRemovalFailed { cause: StoreError },
}

/// What a delete operation asks its runner to do next.
#[derive(Clone, Copy, Debug, PartialEq, Eq, Structural)]
pub enum DeleteAction {
    /// Read the ticket from the store.
    FetchTicket,
    /// Remove this channel at the channel service.
    DeleteChannel { channel_id: u64 },
    /// Remove the ticket from the store.
    DeleteTicket,
    /// The operation is over.
    Finish,
}

/// The action that a delete operation in state `s` is waiting on.
pub open spec fn delete_pending(s: DeleteState) -> DeleteAction {
    match s {
        DeleteState::Fetching => DeleteAction::FetchTicket,
        DeleteState::DeletingChannel { channel_id } => DeleteAction::DeleteChannel { channel_id },
        DeleteState::DeletingTicket => DeleteAction::DeleteTicket,
        _ => DeleteAction::Finish,
    }
}

/// One step of a delete operation: the next state and the next action. The ticket
/// is removed only once its channel is known to be gone; an event that does not
/// answer the pending action changes nothing.
pub open spec fn delete_transition(s: DeleteState, e: DeleteEvent) -> (DeleteState, DeleteAction) {
    match s {
        DeleteState::Fetching => match e {
            DeleteEvent::Found { channel_id } => match channel_id {
                Some(c) => (
                    DeleteState::DeletingChannel { channel_id: c },
                    DeleteAction::DeleteChannel { channel_id: c },
                ),
                None => (DeleteState::DeletingTicket, DeleteAction::DeleteTicket),
            },
            DeleteEvent::Missing => (
                DeleteState::Failed { error: LifecycleError::NotFound },
                DeleteAction::Finish,
            ),
            DeleteEvent::FetchFailed { cause } => (
                DeleteState::Failed { error: LifecycleError::Store(cause) },
                DeleteAction::Finish,
            ),
            _ => (s, delete_pending(s)),
        },
        DeleteState::DeletingChannel { .. } => match e {
            DeleteEvent::ChannelRemoved => (DeleteState::DeletingTicket, DeleteAction::DeleteTicket),
            DeleteEvent::ChannelRemovalFailed { error } => if error
                == GatewayError::ChannelNotFound {
                (DeleteState::DeletingTicket, DeleteAction::DeleteTicket)
            } else {
                (DeleteState::Failed { error: LifecycleError::Gateway(error) }, DeleteAction::Finish)
            },
            _ => (s, delete_pending(s)),
        },
        DeleteState::DeletingTicket => match e {
            DeleteEvent::TicketRemoved { .. } => (DeleteState::Done, DeleteAction::Finish),
            DeleteEvent::TicketRemovalFailed { cause } => (
                DeleteState::Failed { error: LifecycleError::Store(cause) },
                DeleteAction::Finish,
            ),
            _ => (s, delete_pending(s)),
        },
        _ => (s, DeleteAction::Finish),
    }
}

fn delete_pending_action(s: DeleteState) -> (r: DeleteAction)
    ensures
        r == delete_pending(s),
{
    match s {
        DeleteState::Fetching => DeleteAction::FetchTicket,
        DeleteState::DeletingChannel { channel_id } => DeleteAction::DeleteChannel { channel_id },
        DeleteState::DeletingTicket => DeleteAction::DeleteTicket,
        _ => DeleteAction::Finish,
    }
}

/// Computes one step of a delete operation.
pub fn next_delete(s: DeleteState, e: DeleteEvent) -> (r: (DeleteState, DeleteAction))
    ensures
        r == delete_transition(s, e),
{
    match s {
        DeleteState::Fetching => match e {
            DeleteEvent::Found { channel_id } => match channel_id {
                Some(c) => (
                    DeleteState::DeletingChannel { channel_id: c },
                    DeleteAction::DeleteChannel { channel_id: c },
                ),
                None => (DeleteState::DeletingTicket, DeleteAction::DeleteTicket),
            },
            DeleteEvent::Missing => (
                DeleteState::Failed { error: LifecycleError::NotFound },
                DeleteAction::Finish,
            ),
            DeleteEvent::FetchFailed { cause } => (
                DeleteState::Failed { error: LifecycleError::Store(cause) },
                DeleteAction::Finish,
            ),
            _ => (s, delete_pending_action(s)),
        },
        DeleteState::DeletingChannel { .. } => match e {
            DeleteEvent::ChannelRemoved => (DeleteState::DeletingTicket, DeleteAction::DeleteTicket),
            DeleteEvent::ChannelRemovalFailed { error } => {
                if error == GatewayError::ChannelNotFound {
                    (DeleteState::DeletingTicket, DeleteAction::DeleteTicket)
                } else {
                    (
                        DeleteState::Failed { error: LifecycleError::Gateway(error) },
                        DeleteAction::Finish,
                    )
                }
            },
            _ => (s, delete_pending_action(s)),
        },
        DeleteState::DeletingTicket => match e {
            DeleteEvent::TicketRemoved { .. } => (DeleteState::Done, DeleteAction::Finish),
            DeleteEvent::TicketRemovalFailed { cause } => (
                DeleteState::Failed { error: LifecycleError::Store(cause) },
                DeleteAction::Finish,
            ),
            _ => (s, delete_pending_action(s)),
        },
        _ => (s, DeleteAction::Finish),
    }
}

/// A delete operation in flight: the ticket's identity, which it holds in the
/// guard, and where it stands.
pub struct DeleteSaga {
    pub id: TicketId,
    pub state: DeleteState,
}

/// Whether a delete operation has reached its end.
pub open spec fn delete_finished(s: DeleteState) -> bool {
    s is Done || s is Failed
}

/// Begins a delete operation for the ticket whose id has the text `id_text`:
/// reads the id, claims it in the guard and gives the first action.
pub fn start_delete(id_text: &str, guard: &mut LifecycleGuard) -> (r: Result<
    (DeleteSaga, DeleteAction),
    LifecycleError,
>)
    requires
        old(guard).wf(),
    ensures
        final(guard).wf(),
        !is_id_text(id_text@) ==> r == Err::<(DeleteSaga, DeleteAction), LifecycleError>(
            LifecycleError::InvalidInput,
        ) && final(guard)@ == old(guard)@,
        is_id_text(id_text@) && !admits(old(guard)@, KeyView::Ticket(id_text_bytes(id_text@)))
            ==> r == Err::<(DeleteSaga, DeleteAction), LifecycleError>(
            LifecycleError::AlreadyInProgress,
        ) && final(guard)@ == old(guard)@,
        is_id_text(id_text@) && admits(old(guard)@, KeyView::Ticket(id_text_bytes(id_text@)))
            ==> r is Ok && final(guard)@ == old(guard)@.insert(
            KeyView::Ticket(id_text_bytes(id_text@)),
        ),
        r is Ok ==> ({
            let (saga, action) = r->Ok_0;
            &&& saga.id@ == id_text_bytes(id_text@)
            &&& saga.state == DeleteState::Fetching
            &&& action == DeleteAction::FetchTicket
        }),
{
    let id = match TicketId::parse(id_text) {
        Some(id) => id,
        None => {
            return Err(LifecycleError::InvalidInput);
        },
    };
    match guard.acquire(GuardKey::Ticket(id)) {
        Ok(()) => Ok((DeleteSaga { id, state: DeleteState::Fetching }, DeleteAction::FetchTicket)),
        Err(e) => Err(e),
    }
}

impl DeleteSaga {
    /// Feeds the outcome of the last action and returns the next one.
    pub fn step(&mut self, e: DeleteEvent) -> (a: DeleteAction)
        ensures
            (final(self).state, a) == delete_transition(old(self).state, e),
            final(self).id == old(self).id,
    {
        let (s, a) = next_delete(self.state, e);
        self.state = s;
        a
    }

    /// Whether the operation has reached its end.
    pub fn is_finished(&self) -> (r: bool)
        ensures
            r == delete_finished(self.state),
    {
        match self.state {
            DeleteState::Done | DeleteState::Failed { .. } => true,
            _ => false,
        }
    }

    /// Ends the operation: gives up the ticket's id and returns the outcome.
    pub fn finish(self, guard: &mut LifecycleGuard) -> (r: Result<(), LifecycleError>)
        requires
            old(guard).wf(),
            delete_finished(self.state),
        ensures
            final(guard).wf(),
            final(guard)@ == old(guard)@.remove(KeyView::Ticket(self.id@)),
            self.state is Done ==> r is Ok,
            self.state is Failed ==> r == Err::<(), LifecycleError>(self.state->Failed_error),
    {
        guard.release(&GuardKey::Ticket(self.id));
        match self.state {
            DeleteState::Done => Ok(()),
            DeleteState::Failed { error } => Err(error),
            _ => Err(LifecycleError::InvalidInput),
        }
    }
}

} // verus!
