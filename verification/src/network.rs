//! The network monitor's rules: reading kernel connection tables, leaving out
//! local traffic, and rating connections.
use vstd::prelude::*;

use std::sync::Arc;

use crate::config::Config;
use crate::models::{EventData, EventType, Event, NetworkDirection, NetworkEvent, NetworkProtocol, Severity};
use crate::parse::{
    char_vec_views, lines_of, parse_hex, parse_radix16, split_fields, split_on, split_whitespace,
    text_lines, words,
};
use crate::stamp::{is_stamped, new_event, EventStamp};
use crate::text::{chars_equal, chars_of, decimal, has_prefix, owned, push_decimal, starts_with_str, string_of};

verus! {

// ---------------------------------------------------------------------------
// Connection table lines (`/proc/net/tcp`, `/proc/net/udp`)
// ---------------------------------------------------------------------------

/// Dotted decimal form of an IPv4 address stored little-endian in `v`.
pub open spec fn dotted_quad(v: nat) -> Seq<char> {
    decimal(v % 256) + seq!['.'] + decimal((v / 256) % 256) + seq!['.'] + decimal(
        (v / 65536) % 256,
    ) + seq!['.'] + decimal((v / 16777216) % 256)
}

/// The address of an 8-digit hexadecimal field, or `None` where the field is
/// not 8 characters long or not a radix-16 number.
pub open spec fn hex_ip(hex: Seq<char>) -> Option<Seq<char>> {
    if hex.len() != 8 {
        None
    } else {
        match parse_radix16(hex, 0xffff_ffff) {
            Some(v) => Some(dotted_quad(v)),
            None => None,
        }
    }
}

/// Address and port of a field `ADDRESS:PORT` (both hexadecimal), or `None`
/// where the field does not have exactly one `:` or a part does not parse.
pub open spec fn endpoint(field: Seq<char>) -> Option<(Seq<char>, u16)> {
    let parts = split_on(field, ':');
    if parts.len() != 2 {
        None
    } else {
        match (parse_radix16(parts[1], 0xffff), hex_ip(parts[0])) {
            (Some(port), Some(address)) => Some((address, port as u16)),
            _ => None,
        }
    }
}

/// Local and remote endpoints of a table line: its second and third fields,
/// where the line has at least ten whitespace-separated fields.
pub open spec fn connection_endpoints(line: Seq<char>) -> Option<((Seq<char>, u16), (Seq<char>, u16))> {
    let parts = split_whitespace(line);
    if parts.len() < 10 {
        None
    } else {
        match (endpoint(parts[1]), endpoint(parts[2])) {
            (Some(local), Some(remote)) => Some((local, remote)),
            _ => None,
        }
    }
}

/// Two protocols are the same (an `Other` protocol by its name's characters).
pub open spec fn same_protocol(a: NetworkProtocol, b: NetworkProtocol) -> bool {
    match (a, b) {
        (NetworkProtocol::Other(x), NetworkProtocol::Other(y)) => x@ == y@,
        _ => a == b,
    }
}

/// The endpoints of the lines that parse, in order.
pub open spec fn parsed_endpoints(lines: Seq<Seq<char>>) -> Seq<((Seq<char>, u16), (Seq<char>, u16))>
    decreases lines.len(),
{
    if lines.len() == 0 {
        seq![]
    } else {
        let rest = parsed_endpoints(lines.drop_last());
        match connection_endpoints(lines.last()) {
            Some(c) => rest.push(c),
            None => rest,
        }
    }
}

/// The endpoints of a whole connection table: every line after the header
/// line that parses, in order.
pub open spec fn table_endpoints(data: Seq<char>) -> Seq<((Seq<char>, u16), (Seq<char>, u16))> {
    let lines = text_lines(data);
    if lines.len() == 0 {
        seq![]
    } else {
        parsed_endpoints(lines.drop_first())
    }
}

/// `ev` is the connection read from a table line with these endpoints:
/// process unknown, nothing counted, and outbound exactly where the remote
/// port is 0.
pub open spec fn is_table_connection(
    ev: NetworkEvent,
    protocol: NetworkProtocol,
    local: (Seq<char>, u16),
    remote: (Seq<char>, u16),
) -> bool {
    &&& ev.process_id == 0
    &&& ev.process_name@ == "unknown"@
    &&& same_protocol(ev.protocol, protocol)
    &&& ev.local_address@ == local.0
    &&& ev.local_port == local.1
    &&& ev.remote_address@ == remote.0
    &&& ev.remote_port == remote.1
    &&& ev.direction == if remote.1 == 0 {
        NetworkDirection::Outbound
    } else {
        NetworkDirection::Inbound
    }
    &&& ev.bytes_sent == 0
    &&& ev.bytes_received == 0
    &&& ev.dns_query is None
}

// ---------------------------------------------------------------------------
// Rating
// ---------------------------------------------------------------------------

/// Loopback, unspecified, and the private ranges the agent does not report.
pub open spec fn is_local_address(a: Seq<char>) -> bool {
    ||| has_prefix(a, "127."@)
    ||| has_prefix(a, "0.0.0.0"@)
    ||| a == "::1"@
    ||| has_prefix(a, "192.168."@)
    ||| has_prefix(a, "10."@)
    ||| has_prefix(a, "172.16."@)
}

/// Ports of common backdoors and known trojans.
pub open spec fn is_suspicious_port(port: u16) -> bool {
    ||| port == 4444
    ||| port == 4445
    ||| port == 5555
    ||| port == 6666
    ||| port == 7777
    ||| port == 8888
    ||| port == 9999
    ||| port == 31337
    ||| port == 12345
    ||| port == 54321
}

/// Severity of a connection: a suspicious remote port is `High`; otherwise
/// web traffic is `Low`, DNS is `Info` and anything else `Medium`.
pub open spec fn connection_severity(ev: NetworkEvent) -> Severity {
    if is_suspicious_port(ev.remote_port) {
        Severity::High
    } else {
        match ev.protocol {
            NetworkProtocol::HTTP => Severity::Low,
            NetworkProtocol::HTTPS => Severity::Low,
            NetworkProtocol::DNS => Severity::Info,
            _ => Severity::Medium,
        }
    }
}

/// A table line is read from its second and third whitespace-separated
/// fields as soon as it has ten fields: any line with at least ten fields
/// whose second and third fields are endpoints (such as the thirteen-field
/// lines of `/proc/net/udp` or the seventeen-field lines of `/proc/net/tcp`)
/// gives those two endpoints, and a line with fewer than ten fields gives
/// nothing.
pub proof fn lemma_ten_fields_suffice(line: Seq<char>)
    ensures
        split_whitespace(line).len() >= 10 && endpoint(split_whitespace(line)[1]) is Some && endpoint(
            split_whitespace(line)[2],
        ) is Some ==> connection_endpoints(line) == Some(
            (endpoint(split_whitespace(line)[1])->0, endpoint(split_whitespace(line)[2])->0),
        ),
        split_whitespace(line).len() >= 10 && (endpoint(split_whitespace(line)[1]) is None || endpoint(
            split_whitespace(line)[2],
        ) is None) ==> connection_endpoints(line) is None,
        split_whitespace(line).len() < 10 ==> connection_endpoints(line) is None,
{
}

/// A field `ADDRESS:PORT` whose address is eight radix-16 digits and whose
/// port parses as a radix-16 number below 65536 is an endpoint with that
/// address (as a little-endian dotted quad) and port.
pub proof fn lemma_endpoint_of_fields(field: Seq<char>)
    ensures
        split_on(field, ':').len() == 2 && split_on(field, ':')[0].len() == 8 && parse_radix16(
            split_on(field, ':')[0],
            0xffff_ffff,
        ) is Some && parse_radix16(split_on(field, ':')[1], 0xffff) is Some ==> endpoint(field) == Some(
            (
                dotted_quad(parse_radix16(split_on(field, ':')[0], 0xffff_ffff)->0),
                parse_radix16(split_on(field, ':')[1], 0xffff)->0 as u16,
            ),
        ),
        split_on(field, ':').len() != 2 ==> endpoint(field) is None,
{
}

/// A connection read from a table is outbound exactly when its remote port
/// is 0, belongs to the unknown process 0, and counts no bytes.
pub proof fn lemma_table_connection_fields(
    ev: NetworkEvent,
    protocol: NetworkProtocol,
    local: (Seq<char>, u16),
    remote: (Seq<char>, u16),
)
    requires
        is_table_connection(ev, protocol, local, remote),
    ensures
        ev.direction == NetworkDirection::Outbound <==> ev.remote_port == 0,
        ev.direction == NetworkDirection::Inbound <==> ev.remote_port != 0,
        ev.remote_port == remote.1,
        ev.local_port == local.1,
        ev.process_id == 0,
        ev.process_name@ == "unknown"@,
        ev.bytes_sent == 0 && ev.bytes_received == 0,
{
}

/// Every one of the backdoor and trojan ports (4444, 4445, 5555, 6666, 7777,
/// 8888, 9999, 31337, 12345, 54321) makes a connection `High`, whatever its
/// protocol; on any other port web traffic is `Low`, DNS `Info` and anything
/// else `Medium`.
pub proof fn lemma_connection_severity_rules(ev: NetworkEvent)
    ensures
        ev.remote_port == 4444 ==> connection_severity(ev) == Severity::High,
        ev.remote_port == 4445 ==> connection_severity(ev) == Severity::High,
        ev.remote_port == 5555 ==> connection_severity(ev) == Severity::High,
        ev.remote_port == 6666 ==> connection_severity(ev) == Severity::High,
        ev.remote_port == 7777 ==> connection_severity(ev) == Severity::High,
        ev.remote_port == 8888 ==> connection_severity(ev) == Severity::High,
        ev.remote_port == 9999 ==> connection_severity(ev) == Severity::High,
        ev.remote_port == 31337 ==> connection_severity(ev) == Severity::High,
        ev.remote_port == 12345 ==> connection_severity(ev) == Severity::High,
        ev.remote_port == 54321 ==> connection_severity(ev) == Severity::High,
        !(ev.remote_port == 4444 || ev.remote_port == 4445 || ev.remote_port == 5555 || ev.remote_port == 6666 || ev.remote_port == 7777 || ev.remote_port == 8888 || ev.remote_port == 9999 || ev.remote_port == 31337 || ev.remote_port == 12345 || ev.remote_port == 54321) ==> connection_severity(ev) == match ev.protocol {
            NetworkProtocol::HTTP => Severity::Low,
            NetworkProtocol::HTTPS => Severity::Low,
            NetworkProtocol::DNS => Severity::Info,
            _ => Severity::Medium,
        },
{
}

/// Loopback (`127.`), unspecified (`0.0.0.0`, `::1`) and private
/// (`192.168.`, `10.`, `172.16.`) remote addresses are local and not
/// reported; an address that starts with none of these and is not `::1` is
/// reported.
pub proof fn lemma_local_addresses(a: Seq<char>)
    ensures
        has_prefix(a, "127."@) ==> is_local_address(a),
        has_prefix(a, "0.0.0.0"@) ==> is_local_address(a),
        a == "::1"@ ==> is_local_address(a),
        has_prefix(a, "192.168."@) ==> is_local_address(a),
        has_prefix(a, "10."@) ==> is_local_address(a),
        has_prefix(a, "172.16."@) ==> is_local_address(a),
        !has_prefix(a, "127."@) && !has_prefix(a, "0.0.0.0"@) && a != "::1"@ && !has_prefix(a, "192.168."@)
            && !has_prefix(a, "10."@) && !has_prefix(a, "172.16."@) ==> !is_local_address(a),
{
}

// ---------------------------------------------------------------------------
// Monitor
// ---------------------------------------------------------------------------

/// A copy of a protocol.
fn copy_protocol(p: &NetworkProtocol) -> (r: NetworkProtocol)
    ensures
        same_protocol(r, *p),
{
    match p {
        NetworkProtocol::TCP => NetworkProtocol::TCP,
        NetworkProtocol::UDP => NetworkProtocol::UDP,
        NetworkProtocol::ICMP => NetworkProtocol::ICMP,
        NetworkProtocol::HTTP => NetworkProtocol::HTTP,
        NetworkProtocol::HTTPS => NetworkProtocol::HTTPS,
        NetworkProtocol::DNS => NetworkProtocol::DNS,
        NetworkProtocol::Other(name) => NetworkProtocol::Other(name.clone()),
    }
}

/// Turns connection table lines into network events.
pub struct NetworkMonitor {
    config: Arc<Config>,
}

impl NetworkMonitor {
    /// A monitor for the given configuration.
    pub fn new(config: Arc<Config>) -> (r: NetworkMonitor)
        ensures
            r.config() == config,
    {
        NetworkMonitor { config }
    }

    /// The configuration the monitor was made with.
    pub closed spec fn config(&self) -> Arc<Config> {
        self.config
    }

    /// Reads one line of `/proc/net/tcp` or `/proc/net/udp`.
    pub fn parse_linux_connection(&self, line: &str, protocol: NetworkProtocol) -> (r: Option<
        NetworkEvent,
    >)
        ensures
            match r {
                None => connection_endpoints(line@) is None,
                Some(ev) => connection_endpoints(line@) matches Some((local, remote))
                    && is_table_connection(ev, protocol, local, remote),
            },
    {
        let cs = chars_of(line);
        Self::connection_from_chars(&cs, protocol)
    }

    /// Reads the connections of a whole table: every line after the header
    /// line, leaving out lines that do not parse.
    pub fn parse_connection_table(&self, data: &str, protocol: &NetworkProtocol) -> (r: Vec<NetworkEvent>)
        ensures
            r@.len() == table_endpoints(data@).len(),
            forall|i: int|
                0 <= i < r@.len() ==> is_table_connection(
                    #[trigger] r@[i],
                    *protocol,
                    table_endpoints(data@)[i].0,
                    table_endpoints(data@)[i].1,
                ),
    {
        let cs = chars_of(data);
        let lines = lines_of(&cs);
        let ghost lv = char_vec_views(lines@);
        assert(lv.len() == lines@.len());
        let mut out: Vec<NetworkEvent> = Vec::new();
        if lines.len() == 0 {
            return out;
        }
        let ghost body = lv.drop_first();
        let mut i: usize = 1;
        while i < lines.len()
            invariant
                1 <= i <= lines.len(),
                lv == char_vec_views(lines@),
                lv == text_lines(data@),
                body == lv.drop_first(),
                out@.len() == parsed_endpoints(body.take(i - 1)).len(),
                forall|k: int|
                    0 <= k < out@.len() ==> is_table_connection(
                        #[trigger] out@[k],
                        *protocol,
                        parsed_endpoints(body.take(i - 1))[k].0,
                        parsed_endpoints(body.take(i - 1))[k].1,
                    ),
            decreases lines.len() - i,
        {
            let ghost prev = body.take(i - 1);
            assert(body.take(i as int).drop_last() =~= prev);
            assert(body.take(i as int).last() == lv[i as int]);
            assert(lv[i as int] == lines@[i as int]@);
            let ghost before = out@;
            match Self::connection_from_chars(&lines[i], copy_protocol(protocol)) {
                Some(ev) => {
                    out.push(ev);
                    assert forall|k: int| 0 <= k < out@.len() implies is_table_connection(
                        #[trigger] out@[k],
                        *protocol,
                        parsed_endpoints(body.take(i as int))[k].0,
                        parsed_endpoints(body.take(i as int))[k].1,
                    ) by {
                        if k < before.len() {
                            assert(out@[k] == before[k]);
                        }
                    }
                },
                None => {},
            }
            i += 1;
        }
        assert(body.take(lines.len() - 1) =~= body);
        out
    }

    fn connection_from_chars(cs: &Vec<char>, protocol: NetworkProtocol) -> (r: Option<NetworkEvent>)
        ensures
            match r {
                None => connection_endpoints(cs@) is None,
                Some(ev) => connection_endpoints(cs@) matches Some((local, remote))
                    && is_table_connection(ev, protocol, local, remote),
            },
    {
        let parts = words(cs);
        assert(char_vec_views(parts@).len() == parts@.len());
        if parts.len() < 10 {
            return None;
        }
        assert(char_vec_views(parts@)[1] == parts@[1]@);
        assert(char_vec_views(parts@)[2] == parts@[2]@);
        let local = match Self::parse_endpoint(&parts[1]) {
            Some(e) => e,
            None => return None,
        };
        let remote = match Self::parse_endpoint(&parts[2]) {
            Some(e) => e,
            None => return None,
        };
        let (local_address, local_port) = local;
        let (remote_address, remote_port) = remote;
        let direction = if remote_port == 0 {
            NetworkDirection::Outbound
        } else {
            NetworkDirection::Inbound
        };
        Some(
            NetworkEvent {
                process_id: 0,
                process_name: owned("unknown"),
                protocol,
                local_address,
                local_port,
                remote_address,
                remote_port,
                direction,
                bytes_sent: 0,
                bytes_received: 0,
                dns_query: None,
            },
        )
    }

    /// Reads a field `ADDRESS:PORT`.
    fn parse_endpoint(field: &Vec<char>) -> (r: Option<(String, u16)>)
        ensures
            match r {
                None => endpoint(field@) is None,
                Some((a, p)) => endpoint(field@) == Some((a@, p)),
            },
    {
        let parts = split_fields(field, ':');
        assert(char_vec_views(parts@).len() == parts@.len());
        if parts.len() != 2 {
            return None;
        }
        assert(char_vec_views(parts@)[0] == parts@[0]@);
        assert(char_vec_views(parts@)[1] == parts@[1]@);
        let port = match parse_hex(&parts[1], 0xffff) {
            Some(p) => p,
            None => return None,
        };
        let address = match Self::hex_ip_chars(&parts[0]) {
            Some(a) => a,
            None => return None,
        };
        Some((address, port as u16))
    }

    /// Reads an IPv4 address written as 8 hexadecimal digits, least
    /// significant byte first (`0100007F` is `127.0.0.1`).
    pub fn parse_hex_ip(&self, hex: &str) -> (r: Option<String>)
        ensures
            match r {
                None => hex_ip(hex@) is None,
                Some(a) => hex_ip(hex@) == Some(a@),
            },
    {
        let cs = chars_of(hex);
        Self::hex_ip_chars(&cs)
    }

    fn hex_ip_chars(hex: &Vec<char>) -> (r: Option<String>)
        ensures
            match r {
                None => hex_ip(hex@) is None,
                Some(a) => hex_ip(hex@) == Some(a@),
            },
    {
        if hex.len() != 8 {
            return None;
        }
        let v = match parse_hex(hex, 0xffff_ffff) {
            Some(v) => v,
            None => return None,
        };
        let mut out: Vec<char> = Vec::new();
        push_decimal(&mut out, v % 256);
        out.push('.');
        push_decimal(&mut out, (v / 256) % 256);
        out.push('.');
        push_decimal(&mut out, (v / 65536) % 256);
        out.push('.');
        push_decimal(&mut out, (v / 16777216) % 256);
        assert(out@ =~= dotted_quad(v as nat));
        Some(string_of(&out))
    }

    /// Whether the address is loopback, unspecified or in a private range
    /// that the agent does not report.
    pub fn is_local(&self, address: &str) -> (r: bool)
        ensures
            r == is_local_address(address@),
    {
        let a = chars_of(address);
        let loopback6 = chars_of("::1");
        starts_with_str(&a, "127.") || starts_with_str(&a, "0.0.0.0") || chars_equal(
            &a,
            &loopback6,
        ) || starts_with_str(&a, "192.168.") || starts_with_str(&a, "10.") || starts_with_str(
            &a,
            "172.16.",
        )
    }

    /// The severity of a connection.
    pub fn calculate_severity(&self, event: &NetworkEvent) -> (r: Severity)
        ensures
            r == connection_severity(*event),
    {
        let suspicious_ports: [u16; 10] = [4444, 4445, 5555, 6666, 7777, 8888, 9999, 31337, 12345, 54321];
        let mut i: usize = 0;
        while i < 10
            invariant
                i <= 10,
                suspicious_ports@ == seq![4444u16, 4445, 5555, 6666, 7777, 8888, 9999, 31337, 12345, 54321],
                forall|k: int| 0 <= k < i ==> suspicious_ports@[k] != event.remote_port,
            decreases 10 - i,
        {
            if suspicious_ports[i] == event.remote_port {
                return Severity::High;
            }
            i += 1;
        }
        match event.protocol {
            NetworkProtocol::HTTP | NetworkProtocol::HTTPS => Severity::Low,
            NetworkProtocol::DNS => Severity::Info,
            _ => Severity::Medium,
        }
    }

    /// The event to report for a connection, or `None` for local traffic.
    pub fn network_event(&self, stamp: EventStamp, network_event: NetworkEvent) -> (r: Option<
        Event,
    >)
        ensures
            is_local_address(network_event.remote_address@) <==> r is None,
            r matches Some(e) ==> {
                &&& is_stamped(e, stamp, self.config().agent.agent_id)
                &&& e.event_type == EventType::NetworkConnection
                &&& e.severity == connection_severity(network_event)
                &&& e.event_data == EventData::Network(network_event)
            },
    {
        let severity = self.calculate_severity(&network_event);
        if self.is_local(network_event.remote_address.as_str()) {
            return None;
        }
        Some(
            new_event(
                stamp,
                self.config.agent.agent_id,
                EventType::NetworkConnection,
                severity,
                EventData::Network(network_event),
            ),
        )
    }
}

} // verus!
