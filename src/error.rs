use vstd::prelude::*;

verus! {

/// Failures of the channel service, as the client classifies them.
#[derive(Clone, Copy, Debug, PartialEq, Eq, Structural)]
pub enum GatewayError {
    /// The request never got an answer (transport failure or timeout); safe to retry.
    Unavailable,
    /// The service answered with a non-success status; retrying the same input will not help.
    Rejected,
    /// The service answered, but not in the agreed shape.
    ProtocolError,
    /// The channel to delete does not exist (any more).
    ChannelNotFound,
}

/// Failures of the ticket store.
#[derive(Clone, Copy, Debug, PartialEq, Eq, Structural)]
pub enum StoreError {
    /// The store could not be reached or timed out.
    Unavailable,
    /// The ticket's identifier is already taken.
    Conflict,
}

/// What a create or delete operation reports to its caller.
#[derive(Clone, Copy, Debug, PartialEq, Eq, Structural)]
pub enum LifecycleError {
    /// The request itself is malformed; nothing was attempted.
    InvalidInput,
    /// Another operation on the same identity is running.
    AlreadyInProgress,
    /// The ticket does not exist.
    NotFound,
    /// The channel service failed; for a create, no ticket was stored.
    Gateway(GatewayError),
    /// The store failed before anything irreversible happened.
    Store(StoreError),
    /// Storing the ticket failed after its channel had been created. `compensated`
    /// tells whether the channel was removed again; when it is false,
    /// `channel_id` names the orphaned channel.
    InsertFailed { cause: StoreError, channel_id: u64, compensated: bool },
}

/// The store's code for a write refused because the identifier is taken.
pub const DUPLICATE_KEY_CODE: i32 = 11000;

/// The kind of a failed store write with this write-error code, if it had one.
pub open spec fn store_failure_of(write_code: Option<i32>) -> StoreError {
    if write_code == Some(DUPLICATE_KEY_CODE) {
        StoreError::Conflict
    } else {
        StoreError::Unavailable
    }
}

/// Classifies a failed store write by the server's write-error code, if it gave one:
/// a duplicate key is a conflict, anything else leaves the store unavailable.
pub fn store_failure(write_code: Option<i32>) -> (r: StoreError)
    ensures
        r == store_failure_of(write_code),
{
    match write_code {
        Some(c) => {
            if c == DUPLICATE_KEY_CODE {
                StoreError::Conflict
            } else {
                StoreError::Unavailable
            }
        },
        None => StoreError::Unavailable,
    }
}

/// The HTTP status with which an error is reported to the caller.
pub open spec fn status_of(e: LifecycleError) -> u16 {
    match e {
        LifecycleError::InvalidInput => 400,
        LifecycleError::NotFound => 404,
        LifecycleError::AlreadyInProgress => 409,
        LifecycleError::Gateway(GatewayError::Unavailable) => 503,
        LifecycleError::Store(StoreError::Unavailable) => 503,
        LifecycleError::Store(StoreError::Conflict) => 409,
        LifecycleError::Gateway(_) => 502,
        LifecycleError::InsertFailed { .. } => 500,
    }
}

impl LifecycleError {
    /// The HTTP status with which this error is reported: caller errors in the 400s,
    /// contention as a retryable conflict, transient failures as unavailable.
    pub fn status_code(&self) -> (r: u16)
        ensures
            r == status_of(*self),
    {
        match self {
            LifecycleError::InvalidInput => 400,
            LifecycleError::NotFound => 404,
            LifecycleError::AlreadyInProgress => 409,
            LifecycleError::Gateway(GatewayError::Unavailable) => 503,
            LifecycleError::Store(StoreError::Unavailable) => 503,
            LifecycleError::Store(StoreError::Conflict) => 409,
            LifecycleError::Gateway(_) => 502,
            LifecycleError::InsertFailed { .. } => 500,
        }
    }
}

} // verus!
