//! The identity of a new event: a fresh random id, the time, and the host it
//! comes from.
use vstd::prelude::*;

use crate::models::{AgentId, Event, EventData, EventType, OsType, Severity};
use crate::trusted::{
    duration_since_epoch, random_bytes, random_uuid_value, system_time_now, utc_format,
    utc_from_timestamp, uuid_from_random_bytes,
};

verus! {

/// `id` is the value of a random UUID: version 4, RFC 4122 variant.
pub open spec fn has_v4_bits(id: u128) -> bool {
    id & 0x0000_0000_0000_F000_C000_0000_0000_0000u128 == 0x0000_0000_0000_4000_8000_0000_0000_0000u128
}

/// Every UUID made from random bytes carries the version and variant bits.
pub proof fn lemma_random_uuid_has_v4_bits(bytes: Seq<u8>)
    ensures
        has_v4_bits(random_uuid_value(bytes)),
{
    let x: u128 = crate::trusted::big_endian(bytes) as u128;
    assert(((x & !0x0000_0000_0000_F000_C000_0000_0000_0000u128)
        | 0x0000_0000_0000_4000_8000_0000_0000_0000u128)
        & 0x0000_0000_0000_F000_C000_0000_0000_0000u128
        == 0x0000_0000_0000_4000_8000_0000_0000_0000u128) by (bit_vector);
}

/// A fresh random UUID (version 4), as its 128-bit value; `None` where the
/// operating system's random source fails.
pub fn new_uuid() -> (r: Option<u128>)
    ensures
        r matches Some(id) ==> has_v4_bits(id),
{
    match random_bytes() {
        Some(bytes) => {
            let id = uuid_from_random_bytes(bytes);
            proof {
                lemma_random_uuid_has_v4_bits(bytes@);
            }
            Some(id)
        },
        None => None,
    }
}

/// Nanoseconds in a second.
pub open spec fn nanos_per_second() -> int {
    1_000_000_000
}

/// The whole seconds of an instant given in nanoseconds since the Unix epoch
/// (rounded down, so that the nanoseconds left over are never negative).
pub open spec fn instant_secs(t: int) -> int {
    t / nanos_per_second()
}

/// The nanoseconds of an instant past its whole seconds.
pub open spec fn instant_subsec(t: int) -> int {
    t % nanos_per_second()
}

/// What chrono renders with the format `fmt` for the instant `t` (nanoseconds
/// since the Unix epoch, UTC); `None` where its seconds do not fit an `i64`
/// or chrono cannot render it.
pub open spec fn utc_format_at(t: int, fmt: Seq<char>) -> Option<Seq<char>> {
    if i64::MIN <= instant_secs(t) <= i64::MAX {
        utc_format(instant_secs(t) as i64, instant_subsec(t) as u32, fmt)
    } else {
        None
    }
}

/// The seconds and nanoseconds of the instant `t` (nanoseconds since the Unix
/// epoch); `None` where the seconds do not fit an `i64`.
pub fn split_instant(t: i128) -> (r: Option<(i64, u32)>)
    ensures
        r is Some <==> i64::MIN <= instant_secs(t as int) <= i64::MAX,
        r matches Some((s, n)) ==> s == instant_secs(t as int) && n == instant_subsec(t as int),
{
    let (q, rem): (i128, i128) = if t >= 0 {
        (t / 1_000_000_000, t % 1_000_000_000)
    } else {
        let u: i128 = -(t + 1);
        (-(u / 1_000_000_000) - 1, 999_999_999 - u % 1_000_000_000)
    };
    proof {
        let m: int = 1_000_000_000;
        if t >= 0 {
            vstd::arithmetic::div_mod::lemma_fundamental_div_mod(t as int, m);
            vstd::arithmetic::div_mod::lemma_mod_bound(t as int, m);
        } else {
            let u: int = -(t + 1);
            vstd::arithmetic::div_mod::lemma_fundamental_div_mod(u, m);
            vstd::arithmetic::div_mod::lemma_mod_bound(u, m);
            assert(t == m * (-(u / m) - 1) + (m - 1 - u % m));
            vstd::arithmetic::div_mod::lemma_fundamental_div_mod_converse(t as int, m, -(u / m) - 1, m - 1 - u % m);
        }
        assert(q == instant_secs(t as int) && rem == instant_subsec(t as int));
    }
    if q < -0x8000_0000_0000_0000i128 || q > 0x7fff_ffff_ffff_ffffi128 {
        return None;
    }
    Some((q as i64, rem as u32))
}

/// The current time in nanoseconds since the Unix epoch (UTC); `None` where
/// the clock reads before the epoch or beyond the dates chrono can hold.
pub fn now_nanos() -> (r: Option<i128>)
    ensures
        r matches Some(t) ==> t >= 0,
{
    let now = system_time_now();
    match duration_since_epoch(&now) {
        Some((secs, nanos)) => {
            if secs > 0x7fff_ffff_ffff_ffffu64 {
                return None;
            }
            match utc_from_timestamp(secs as i64, nanos) {
                Some((s, n)) => Some(s as i128 * 1_000_000_000 + n as i128),
                None => None,
            }
        },
        None => None,
    }
}

/// Id, time and host of an event about to be built.
#[derive(Clone, Debug)]
pub struct EventStamp {
    pub event_id: u128,
    /// Nanoseconds since the Unix epoch, UTC.
    pub timestamp: i128,
    pub hostname: String,
    pub os_type: OsType,
}

impl EventStamp {
    /// A fresh random event id and the current time, for an event on the
    /// `os` host named `hostname`; `None` where no random id or no time could
    /// be had.
    pub fn capture(hostname: String, os: OsType) -> (r: Option<EventStamp>)
        ensures
            r matches Some(s) ==> {
                &&& s.hostname == hostname
                &&& s.os_type == os
                &&& has_v4_bits(s.event_id)
                &&& s.timestamp >= 0
            },
    {
        let event_id = match new_uuid() {
            Some(id) => id,
            None => return None,
        };
        let timestamp = match now_nanos() {
            Some(t) => t,
            None => return None,
        };
        Some(EventStamp { event_id, timestamp, hostname, os_type: os })
    }
}

/// `e` is a new, not yet analyzed event of `agent_id`, identified by `stamp`.
pub open spec fn is_stamped(e: Event, stamp: EventStamp, agent_id: AgentId) -> bool {
    &&& e.event_id == stamp.event_id
    &&& e.agent_id == agent_id
    &&& e.timestamp == stamp.timestamp
    &&& e.hostname == stamp.hostname
    &&& e.os_type == stamp.os_type
    &&& e.detection is None
}

/// A new event of `agent_id` with the given type, severity and data.
pub fn new_event(
    stamp: EventStamp,
    agent_id: AgentId,
    event_type: EventType,
    severity: Severity,
    event_data: EventData,
) -> (r: Event)
    ensures
        is_stamped(r, stamp, agent_id),
        r.event_type == event_type,
        r.severity == severity,
        r.event_data == event_data,
{
    Event {
        event_id: stamp.event_id,
        agent_id,
        timestamp: stamp.timestamp,
        event_type,
        severity,
        hostname: stamp.hostname,
        os_type: stamp.os_type,
        event_data,
        detection: None,
    }
}

} // verus!
