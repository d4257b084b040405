use vstd::prelude::*;
use crate::error::{GatewayError, LifecycleError, StoreError};
use crate::guard::{admits, KeyView};
use crate::saga::{
    create_transition, delete_transition, CreateAction, CreateEvent, CreateState, DeleteAction,
    DeleteEvent, DeleteState,
};

verus! {

/// The answer of a store that holds `store` (each ticket id with its channel) to a
/// fetch of `id`.
pub open spec fn fetched(store: Map<Seq<u8>, Option<u64>>, id: Seq<u8>) -> DeleteEvent {
    if store.contains_key(id) {
        DeleteEvent::Found { channel_id: store[id] }
    } else {
        DeleteEvent::Missing
    }
}

/// A ticket becomes visible only with its channel: a create operation asks the store
/// to take the ticket only carrying the channel of the state it is in, it enters that
/// state only when the channel service reports the channel created, and it ends
/// `Done` only from there, when the store reports the ticket taken or a re-read
/// finds it stored.
pub proof fn lemma_ticket_stored_only_with_channel(s: CreateState, e: CreateEvent)
    ensures
        ({
            let (n, a) = create_transition(s, e);
            &&& a is InsertTicket ==> n == CreateState::PersistingTicket {
                channel_id: a->InsertTicket_channel_id,
            }
            &&& n is PersistingTicket && !(s is PersistingTicket) ==> e
                == CreateEvent::ChannelCreated { channel_id: n->PersistingTicket_channel_id }
            &&& n is Done && !(s is Done) ==> {
                ||| e == CreateEvent::Inserted && s == CreateState::PersistingTicket {
                    channel_id: n->Done_channel_id,
                }
                ||| e == CreateEvent::TicketFound && s == CreateState::Confirming {
                    channel_id: n->Done_channel_id,
                }
            }
        }),
{
}

/// A ticket stops being visible only once its channel is gone: a delete operation
/// asks the store to remove the ticket only after the channel service reported the
/// channel removed or absent, or the stored ticket had no channel.
pub proof fn lemma_ticket_removed_only_without_channel(s: DeleteState, e: DeleteEvent)
    ensures
        ({
            let (n, a) = delete_transition(s, e);
            &&& a is DeleteTicket ==> n == DeleteState::DeletingTicket
            &&& n is DeletingTicket && !(s is DeletingTicket) ==> {
                ||| e == DeleteEvent::ChannelRemoved
                ||| e == (DeleteEvent::ChannelRemovalFailed {
                    error: GatewayError::ChannelNotFound,
                })
                ||| e == (DeleteEvent::Found { channel_id: None })
            }
            &&& n is Done && !(s is Done) ==> s == DeleteState::DeletingTicket
        }),
{
}

/// Deleting the same ticket twice in a row: the first operation removes the channel
/// (or finds it gone) and then the ticket, and ends `Done`; the second finds no ticket
/// and ends `NotFound` without asking the channel service for anything.
pub proof fn lemma_delete_twice(
    store: Map<Seq<u8>, Option<u64>>,
    id: Seq<u8>,
    removal: DeleteEvent,
    count: u64,
)
    requires
        store.contains_key(id),
        removal == DeleteEvent::ChannelRemoved || removal == (DeleteEvent::ChannelRemovalFailed {
            error: GatewayError::ChannelNotFound,
        }),
    ensures
        ({
            let (s1, a1) = delete_transition(DeleteState::Fetching, fetched(store, id));
            let (s2, a2) = if a1 is DeleteChannel {
                delete_transition(s1, removal)
            } else {
                (s1, a1)
            };
            let (s3, a3) = delete_transition(s2, DeleteEvent::TicketRemoved { count });
            &&& a1 is DeleteChannel <==> store[id] is Some
            &&& a1 is DeleteChannel ==> a1->DeleteChannel_channel_id == store[id]->0
            &&& a2 == DeleteAction::DeleteTicket
            &&& s3 == DeleteState::Done
            &&& a3 == DeleteAction::Finish
        }),
        delete_transition(DeleteState::Fetching, fetched(store.remove(id), id)) == (
            DeleteState::Failed { error: LifecycleError::NotFound },
            DeleteAction::Finish,
        ),
{
}

/// When the store refuses a ticket after its channel was created, the operation
/// removes that channel, never ends `Done`, and fails with the store's cause; the
/// channel is reported orphaned exactly when its removal failed other than by the
/// channel being absent.
pub proof fn lemma_refused_insert_compensates(
    channel_id: u64,
    cause: StoreError,
    removal: CreateEvent,
)
    requires
        removal == CreateEvent::ChannelRemoved || removal is ChannelRemovalFailed,
    ensures
        create_transition(
            CreateState::PersistingTicket { channel_id },
            CreateEvent::InsertFailed { cause },
        ) == (CreateState::Compensating { channel_id, cause }, CreateAction::DeleteChannel {
            channel_id,
        }),
        ({
            let (n, a) = create_transition(CreateState::Compensating { channel_id, cause }, removal);
            let orphaned = removal is ChannelRemovalFailed && removal->ChannelRemovalFailed_error
                != GatewayError::ChannelNotFound;
            &&& a == CreateAction::Finish
            &&& n == (CreateState::Failed {
                error: LifecycleError::InsertFailed { cause, channel_id, compensated: !orphaned },
            })
        }),
{
}

/// A failure of the channel service while removing a ticket's channel, other than
/// the channel's absence, ends the delete operation with that failure, and the
/// ticket's removal is never asked for afterwards.
pub proof fn lemma_failed_channel_removal_keeps_ticket(
    channel_id: u64,
    error: GatewayError,
    later: DeleteEvent,
)
    requires
        error != GatewayError::ChannelNotFound,
    ensures
        delete_transition(
            DeleteState::DeletingChannel { channel_id },
            DeleteEvent::ChannelRemovalFailed { error },
        ) == (DeleteState::Failed { error: LifecycleError::Gateway(error) }, DeleteAction::Finish),
        delete_transition(DeleteState::Failed { error: LifecycleError::Gateway(error) }, later)
            == (DeleteState::Failed { error: LifecycleError::Gateway(error) }, DeleteAction::Finish),
{
}

/// Of two operations under the same key, the second is refused while the first
/// runs, and admitted again once the first has released the key.
pub proof fn lemma_same_key_excluded(active: Set<KeyView>, key: KeyView)
    requires
        admits(active, key),
    ensures
        !admits(active.insert(key), key),
        admits(active.insert(key).remove(key), key),
{
}

/// Operations under different keys do not hinder each other.
pub proof fn lemma_distinct_keys_independent(active: Set<KeyView>, k1: KeyView, k2: KeyView)
    requires
        k1 != k2,
        admits(active, k1),
        admits(active, k2),
    ensures
        admits(active.insert(k1), k2),
        admits(active.insert(k2), k1),
{
}

/// Every stored ticket other than `skip` carries a channel that exists at the
/// channel service, and no two stored tickets carry the same channel.
pub open spec fn backed_except(
    channels: Set<u64>,
    store: Map<Seq<u8>, Option<u64>>,
    skip: Option<Seq<u8>>,
) -> bool {
    &&& forall|t: Seq<u8>|
        #[trigger] store.contains_key(t) && Some(t) != skip ==> store[t] is Some && channels.contains(
            store[t]->0,
        )
    &&& forall|t: Seq<u8>, u: Seq<u8>|
        store.contains_key(t) && store.contains_key(u) && t != u && #[trigger] store[t] is Some
            ==> store[t] != #[trigger] store[u]
}

/// Every stored ticket carries a channel that exists.
pub open spec fn tickets_backed(channels: Set<u64>, store: Map<Seq<u8>, Option<u64>>) -> bool {
    forall|t: Seq<u8>|
        #[trigger] store.contains_key(t) ==> store[t] is Some && channels.contains(store[t]->0)
}

/// Every stored ticket carries a channel that exists, each its own.
pub open spec fn backed(channels: Set<u64>, store: Map<Seq<u8>, Option<u64>>) -> bool {
    backed_except(channels, store, None)
}

/// How the channels and the stored tickets change when a create operation for
/// ticket `id` in state `s` receives `e`; `landed` says whether an insert whose
/// outcome is unknown took effect.
pub open spec fn create_effect(
    channels: Set<u64>,
    store: Map<Seq<u8>, Option<u64>>,
    id: Seq<u8>,
    s: CreateState,
    e: CreateEvent,
    landed: bool,
) -> (Set<u64>, Map<Seq<u8>, Option<u64>>) {
    match (s, e) {
        (CreateState::CreatingChannel { .. }, CreateEvent::ChannelCreated { channel_id }) => (
            channels.insert(channel_id),
            store,
        ),
        (CreateState::PersistingTicket { channel_id }, CreateEvent::Inserted) => (
            channels,
            store.insert(id, Some(channel_id)),
        ),
        (CreateState::PersistingTicket { channel_id }, CreateEvent::InsertUncertain) => if landed {
            (channels, store.insert(id, Some(channel_id)))
        } else {
            (channels, store)
        },
        (CreateState::Compensating { channel_id, .. }, CreateEvent::ChannelRemoved) => (
            channels.remove(channel_id),
            store,
        ),
        _ => (channels, store),
    }
}

/// What a create operation for ticket `id` in state `s` knows of the world: the
/// ticket is not stored before the end (or, after an insert with unknown outcome,
/// stored with its channel), and the channel it holds exists and is carried by no
/// other stored ticket.
pub open spec fn create_knows(
    channels: Set<u64>,
    store: Map<Seq<u8>, Option<u64>>,
    id: Seq<u8>,
    s: CreateState,
) -> bool {
    match s {
        CreateState::CreatingChannel { .. } => !store.contains_key(id),
        CreateState::WaitingToRetry { .. } => !store.contains_key(id),
        CreateState::PersistingTicket { channel_id } => {
            &&& !store.contains_key(id)
            &&& channels.contains(channel_id)
            &&& forall|t: Seq<u8>| #[trigger] store.contains_key(t) ==> store[t] != Some(channel_id)
        },
        CreateState::Confirming { channel_id } => {
            &&& store.contains_key(id) ==> store[id] == Some(channel_id)
            &&& channels.contains(channel_id)
            &&& forall|t: Seq<u8>|
                #[trigger] store.contains_key(t) && t != id ==> store[t] != Some(channel_id)
        },
        CreateState::Compensating { channel_id, .. } => {
            &&& !store.contains_key(id)
            &&& forall|t: Seq<u8>| #[trigger] store.contains_key(t) ==> store[t] != Some(channel_id)
        },
        _ => true,
    }
}

/// A create operation keeps every stored ticket backed by an existing channel, at
/// every step, whether or not an insert with unknown outcome took effect, as long as
/// the channel service hands out channels that do not exist yet and a re-read of the
/// ticket answers truthfully. If no two stored tickets shared a channel, none do
/// afterwards.
pub proof fn lemma_create_keeps_tickets_backed(
    channels: Set<u64>,
    store: Map<Seq<u8>, Option<u64>>,
    id: Seq<u8>,
    s: CreateState,
    e: CreateEvent,
    landed: bool,
)
    requires
        tickets_backed(channels, store),
        create_knows(channels, store, id, s),
        e is ChannelCreated ==> !channels.contains(e->ChannelCreated_channel_id),
        s is Confirming && (e is TicketFound || e is TicketMissing) ==> (e is TicketFound
            <==> store.contains_key(id)),
    ensures
        ({
            let (n, a) = create_transition(s, e);
            let (channels2, store2) = create_effect(channels, store, id, s, e, landed);
            &&& tickets_backed(channels2, store2)
            &&& backed(channels, store) ==> backed(channels2, store2)
            &&& create_knows(channels2, store2, id, n)
        }),
{
    let (n, a) = create_transition(s, e);
    let (channels2, store2) = create_effect(channels, store, id, s, e, landed);
    match (s, e) {
        (CreateState::PersistingTicket { channel_id }, CreateEvent::Inserted)
        | (CreateState::PersistingTicket { channel_id }, CreateEvent::InsertUncertain) => {
            if backed(channels, store) {
                assert forall|t: Seq<u8>, u: Seq<u8>|
                    store2.contains_key(t) && store2.contains_key(u) && t != u
                        && #[trigger] store2[t] is Some implies store2[t] != #[trigger] store2[u] by {
                    if t != id && u != id {
                        assert(store.contains_key(t) && store.contains_key(u));
                    } else if t == id {
                        assert(store.contains_key(u));
                    } else {
                        assert(store.contains_key(t));
                    }
                }
            }
        },
        _ => {},
    }
}

/// How the channels and the stored tickets change when a delete operation for
/// ticket `id` in state `s` receives `e`.
pub open spec fn delete_effect(
    channels: Set<u64>,
    store: Map<Seq<u8>, Option<u64>>,
    id: Seq<u8>,
    s: DeleteState,
    e: DeleteEvent,
) -> (Set<u64>, Map<Seq<u8>, Option<u64>>) {
    match (s, e) {
        (DeleteState::DeletingChannel { channel_id }, DeleteEvent::ChannelRemoved) => (
            channels.remove(channel_id),
            store,
        ),
        (DeleteState::DeletingTicket, DeleteEvent::TicketRemoved { .. }) => (
            channels,
            store.remove(id),
        ),
        _ => (channels, store),
    }
}

/// What holds of the world while a delete operation for ticket `id` is in state
/// `s`: every stored ticket is backed, except the one being deleted once its channel
/// is gone.
pub open spec fn delete_knows(
    channels: Set<u64>,
    store: Map<Seq<u8>, Option<u64>>,
    id: Seq<u8>,
    s: DeleteState,
) -> bool {
    match s {
        DeleteState::DeletingChannel { channel_id } => {
            &&& backed(channels, store)
            &&& store.contains_key(id)
            &&& store[id] == Some(channel_id)
        },
        DeleteState::DeletingTicket => backed_except(channels, store, Some(id)),
        _ => backed(channels, store),
    }
}

/// A delete operation keeps every other stored ticket backed by its channel at
/// every step, and all of them once it ends; the store and the channel service
/// answer truthfully. A store failure on the final removal is left out: it leaves
/// the ticket stored after its channel is gone.
pub proof fn lemma_delete_keeps_tickets_backed(
    channels: Set<u64>,
    store: Map<Seq<u8>, Option<u64>>,
    id: Seq<u8>,
    s: DeleteState,
    e: DeleteEvent,
)
    requires
        delete_knows(channels, store, id, s),
        s is Fetching && (e is Found || e is Missing) ==> e == fetched(store, id),
        s is DeletingChannel && e == (DeleteEvent::ChannelRemovalFailed {
            error: GatewayError::ChannelNotFound,
        }) ==> !channels.contains(s->DeletingChannel_channel_id),
        !(s is DeletingTicket && e is TicketRemovalFailed),
    ensures
        ({
            let (n, a) = delete_transition(s, e);
            let (channels2, store2) = delete_effect(channels, store, id, s, e);
            &&& delete_knows(channels2, store2, id, n)
            &&& (n is Done || n is Failed) ==> backed(channels2, store2)
        }),
{
    let (n, a) = delete_transition(s, e);
    let (channels2, store2) = delete_effect(channels, store, id, s, e);
    match s {
        DeleteState::Fetching => {
            if e is Found {
                assert(store.contains_key(id));
            }
        },
        DeleteState::DeletingChannel { channel_id } => {
            assert forall|t: Seq<u8>|
                #[trigger] store2.contains_key(t) && Some(t) != Some(id) implies store2[t] is Some
                && channels2.contains(store2[t]->0) by {
                assert(store.contains_key(t));
                assert(store[t] != store[id]);
            }
        },
        DeleteState::DeletingTicket => {
            assert forall|t: Seq<u8>, u: Seq<u8>|
                store2.contains_key(t) && store2.contains_key(u) && t != u
                    && #[trigger] store2[t] is Some implies store2[t] != #[trigger] store2[u] by {
                assert(store.contains_key(t) && store.contains_key(u));
            }
        },
        _ => {},
    }
}

} // verus!
