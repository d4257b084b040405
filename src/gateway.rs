use vstd::prelude::*;
use crate::error::GatewayError;

verus! {

/// The status with which the channel service reports success.
pub const STATUS_OK: u16 = 200;

/// The status with which the channel service reports a channel it could not delete.
pub const STATUS_NOT_FOUND: u16 = 404;

/// The status with which the channel service reports a request without a channel id.
pub const STATUS_BAD_REQUEST: u16 = 400;

/// The status with which the channel service reports a failed creation.
pub const STATUS_SERVER_ERROR: u16 = 500;

/// Whether `c` has the Unicode `White_Space` property.
pub open spec fn is_whitespace(c: char) -> bool {
    let u = c as u32;
    (0x09 <= u && u <= 0x0d) || u == 0x20 || u == 0x85 || u == 0xa0 || u == 0x1680 || (0x2000
        <= u && u <= 0x200a) || u == 0x2028 || u == 0x2029 || u == 0x202f || u == 0x205f || u
        == 0x3000
}

/// A channel's display name: the ticket title with each whitespace character made
/// a `-`. Distinct titles may give the same name.
pub open spec fn channel_name_of(title: Seq<char>) -> Seq<char> {
    title.map_values(|c: char| if is_whitespace(c) { '-' } else { c })
}

/// Relies on `str::replace` with the pattern `char::is_whitespace`, which replaces
/// every character with the Unicode `White_Space` property.
#[verifier::external_body]
fn replace_whitespace(s: &str) -> (r: String)
    ensures
        r@ == channel_name_of(s@),
{
    s.replace(char::is_whitespace, "-")
}

/// The name of the channel that belongs to a ticket with this title.
pub fn channel_name(title: &str) -> (r: String)
    ensures
        r@ == channel_name_of(title@),
{
    replace_whitespace(title)
}

/// The `channel_id` field of a JSON reply body, when the body is a JSON object whose
/// field holds an unsigned integer that fits in 64 bits.
pub uninterp spec fn channel_id_field(body: Seq<char>) -> Option<u64>;

/// Relies on `serde_json::from_str` to read the body as a JSON value, and on
/// `Value::get` and `Value::as_u64` to read its `channel_id` field.
#[verifier::external_body]
fn read_channel_id(body: &str) -> (r: Option<u64>)
    ensures
        r == channel_id_field(body@),
{
    serde_json::from_str::<serde_json::Value>(body).ok().and_then(
        |v| v.get("channel_id").and_then(|x| x.as_u64()),
    )
}

/// What a reply to a create request means, given its status and the channel id
/// read from its body.
pub open spec fn create_reply_meaning(status: u16, channel_id: Option<u64>) -> Result<
    u64,
    GatewayError,
> {
    if status != STATUS_OK {
        Err(GatewayError::Rejected)
    } else {
        match channel_id {
            Some(c) => Ok(c),
            None => Err(GatewayError::ProtocolError),
        }
    }
}

/// Classifies a reply to a create request from its status and the channel id
/// found in its body.
pub fn create_reply_outcome(status: u16, channel_id: Option<u64>) -> (r: Result<u64, GatewayError>)
    ensures
        r == create_reply_meaning(status, channel_id),
{
    if status != STATUS_OK {
        Err(GatewayError::Rejected)
    } else {
        match channel_id {
            Some(c) => Ok(c),
            None => Err(GatewayError::ProtocolError),
        }
    }
}

/// Classifies a reply to a create request from its status and raw body.
/// The body is read only on success.
pub fn interpret_create_reply(status: u16, body: &str) -> (r: Result<u64, GatewayError>)
    ensures
        r == create_reply_meaning(status, channel_id_field(body@)),
{
    if status != STATUS_OK {
        create_reply_outcome(status, None)
    } else {
        let found = read_channel_id(body);
        create_reply_outcome(status, found)
    }
}

/// What a reply to a delete request means.
pub open spec fn delete_reply_meaning(status: u16) -> Result<(), GatewayError> {
    if status == STATUS_OK {
        Ok(())
    } else if status == STATUS_NOT_FOUND {
        Err(GatewayError::ChannelNotFound)
    } else if status >= 500 {
        Err(GatewayError::Unavailable)
    } else {
        Err(GatewayError::ProtocolError)
    }
}

/// Classifies a reply to a delete request by its status: a server-side failure
/// may pass, anything else but success or an unknown channel breaks the protocol.
pub fn interpret_delete_reply(status: u16) -> (r: Result<(), GatewayError>)
    ensures
        r == delete_reply_meaning(status),
{
    if status == STATUS_OK {
        Ok(())
    } else if status == STATUS_NOT_FOUND {
        Err(GatewayError::ChannelNotFound)
    } else if status >= 500 {
        Err(GatewayError::Unavailable)
    } else {
        Err(GatewayError::ProtocolError)
    }
}

/// What the channel service does with a delete request.
#[derive(Clone, Copy, Debug, PartialEq, Eq, Structural)]
pub enum ServiceDeleteStep {
    /// Delete this channel, then answer with `deleted_reply_status`.
    DeleteChannel { channel_id: u64 },
    /// Answer at once with this status.
    Reply { status: u16 },
}

/// The channel service's first decision on a delete request: a request that names
/// no channel is answered as bad.
pub fn service_delete_step(channel_id: Option<u64>) -> (r: ServiceDeleteStep)
    ensures
        channel_id is Some ==> r == (ServiceDeleteStep::DeleteChannel { channel_id: channel_id->0 }),
        channel_id is None ==> r == (ServiceDeleteStep::Reply { status: STATUS_BAD_REQUEST }),
{
    match channel_id {
        Some(c) => ServiceDeleteStep::DeleteChannel { channel_id: c },
        None => ServiceDeleteStep::Reply { status: STATUS_BAD_REQUEST },
    }
}

/// The status with which the channel service reports a deletion that failed for
/// another reason than the channel being unknown.
pub const STATUS_BAD_GATEWAY: u16 = 502;

/// How the channel service's attempt to delete a channel ended.
#[derive(Clone, Copy, Debug, PartialEq, Eq, Structural)]
pub enum DeletionOutcome {
    Deleted,
    /// The messaging platform does not know the channel.
    UnknownChannel,
    /// Any other failure: transport, permissions, rate limits.
    Failed,
}

/// The channel service's answer once it tried to delete a channel: only an unknown
/// channel is reported as not found, so that no other failure passes for one.
pub fn deleted_reply_status(outcome: DeletionOutcome) -> (r: u16)
    ensures
        outcome == DeletionOutcome::Deleted ==> r == STATUS_OK,
        outcome == DeletionOutcome::UnknownChannel ==> r == STATUS_NOT_FOUND,
        outcome == DeletionOutcome::Failed ==> r == STATUS_BAD_GATEWAY,
{
    match outcome {
        DeletionOutcome::Deleted => STATUS_OK,
        DeletionOutcome::UnknownChannel => STATUS_NOT_FOUND,
        DeletionOutcome::Failed => STATUS_BAD_GATEWAY,
    }
}

/// The messaging platform's error code for an unknown channel.
pub const UNKNOWN_CHANNEL_CODE: i64 = 10003;

/// Classifies a failed deletion by the messaging platform's error code, if it gave one.
pub fn deletion_failure(error_code: Option<i64>) -> (r: DeletionOutcome)
    ensures
        error_code == Some(UNKNOWN_CHANNEL_CODE) ==> r == DeletionOutcome::UnknownChannel,
        error_code != Some(UNKNOWN_CHANNEL_CODE) ==> r == DeletionOutcome::Failed,
{
    match error_code {
        Some(c) => {
            if c == UNKNOWN_CHANNEL_CODE {
                DeletionOutcome::UnknownChannel
            } else {
                DeletionOutcome::Failed
            }
        },
        None => DeletionOutcome::Failed,
    }
}

/// The channel service's answer to a create request: the channel id on success.
pub fn created_reply(channel_id: Option<u64>) -> (r: (u16, Option<u64>))
    ensures
        channel_id is Some ==> r == (STATUS_OK, channel_id),
        channel_id is None ==> r == (STATUS_SERVER_ERROR, None::<u64>),
{
    match channel_id {
        Some(c) => (STATUS_OK, Some(c)),
        None => (STATUS_SERVER_ERROR, None),
    }
}

} // verus!
