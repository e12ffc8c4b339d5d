//! The agent-server protocol: message envelopes, endpoints and replies.
use vstd::prelude::*;

use crate::models::MonitoringConfig;
use crate::text::{chars_of, push_str_chars, string_of};
use crate::stamp::{has_v4_bits, new_uuid, now_nanos};

verus! {

/// Protocol version for compatibility checking.
pub const PROTOCOL_VERSION: u32 = 1;

/// A message with its protocol metadata.
#[derive(Clone, Debug)]
pub struct MessageEnvelope<T> {
    pub version: u32,
    /// Nanoseconds since the Unix epoch, UTC.
    pub timestamp: i128,
    /// A UUID as its 128-bit value.
    pub message_id: u128,
    pub payload: T,
}

impl<T> MessageEnvelope<T> {
    /// Wraps `payload` with the current protocol version, the current time
    /// and a fresh random message id; `None` where no random id or no time
    /// could be had.
    pub fn new(payload: T) -> (r: Option<Self>)
        ensures
            r matches Some(m) ==> {
                &&& m.version == PROTOCOL_VERSION
                &&& m.payload == payload
                &&& has_v4_bits(m.message_id)
                &&& m.timestamp >= 0
            },
    {
        let message_id = match new_uuid() {
            Some(id) => id,
            None => return None,
        };
        let timestamp = match now_nanos() {
            Some(t) => t,
            None => return None,
        };
        Some(MessageEnvelope { version: PROTOCOL_VERSION, timestamp, message_id, payload })
    }
}

/// The server endpoints the agent posts to.
#[derive(Clone, Copy, Debug, PartialEq, Eq, Structural)]
pub enum ApiEndpoint {
    Register,
    Heartbeat,
    Events,
}

/// The path of an endpoint below the server URL.
pub open spec fn endpoint_path(endpoint: ApiEndpoint) -> Seq<char> {
    match endpoint {
        ApiEndpoint::Register => "/api/v1/agent/register"@,
        ApiEndpoint::Heartbeat => "/api/v1/agent/heartbeat"@,
        ApiEndpoint::Events => "/api/v1/agent/events"@,
    }
}

/// The URL of `endpoint` on the server at `server_url`.
pub fn api_url(server_url: &str, endpoint: ApiEndpoint) -> (r: String)
    ensures
        r@ == server_url@ + endpoint_path(endpoint),
{
    let mut cs = chars_of(server_url);
    match endpoint {
        ApiEndpoint::Register => push_str_chars(&mut cs, "/api/v1/agent/register"),
        ApiEndpoint::Heartbeat => push_str_chars(&mut cs, "/api/v1/agent/heartbeat"),
        ApiEndpoint::Events => push_str_chars(&mut cs, "/api/v1/agent/events"),
    }
    string_of(&cs)
}

/// A reply status counts as success when it is in the 2xx range.
pub open spec fn is_success(status: u16) -> bool {
    200 <= status <= 299
}

/// Whether an HTTP reply status is a success (2xx).
pub fn is_success_status(status: u16) -> (r: bool)
    ensures
        r == is_success(status),
{
    200 <= status && status <= 299
}

/// A batch of events is only posted when it holds an event.
pub fn should_send_events(count: usize) -> (r: bool)
    ensures
        r == (count > 0),
{
    count > 0
}

/// The monitors the agent can run.
#[derive(Clone, Copy, Debug, PartialEq, Eq, Structural)]
pub enum MonitorKind {
    FileSystem,
    Processes,
    Network,
}

/// The monitors switched on, in the order in which they start: file system,
/// processes, network.
pub open spec fn monitors_enabled(m: MonitoringConfig) -> Seq<MonitorKind> {
    let a: Seq<MonitorKind> = if m.file_system {
        seq![MonitorKind::FileSystem]
    } else {
        seq![]
    };
    let b: Seq<MonitorKind> = if m.processes {
        a.push(MonitorKind::Processes)
    } else {
        a
    };
    if m.network {
        b.push(MonitorKind::Network)
    } else {
        b
    }
}

/// The monitors to start under this configuration.
pub fn enabled_monitors(m: &MonitoringConfig) -> (r: Vec<MonitorKind>)
    ensures
        r@ == monitors_enabled(*m),
{
    let mut v: Vec<MonitorKind> = Vec::new();
    if m.file_system {
        v.push(MonitorKind::FileSystem);
    }
    if m.processes {
        v.push(MonitorKind::Processes);
    }
    if m.network {
        v.push(MonitorKind::Network);
    }
    assert(v@ =~= monitors_enabled(*m));
    v
}

} // verus!
