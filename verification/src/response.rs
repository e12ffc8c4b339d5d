//! The response handler's decisions: which action a detected threat calls for,
//! where a quarantined file goes, and which firewall command blocks a
//! connection. Carrying the actions out is left to the caller.
use vstd::prelude::*;

use std::sync::Arc;

use crate::config::Config;
use crate::detection::{analyzed, is_ransomware_path, is_suspicious_command};
use crate::models::{current_os_type, ActionType, Event, EventData, FileEvent, NetworkEvent, OsType, ProcessEvent, QuarantineInfo};
use crate::text::{chars_of, decimal, owned, push_chars, push_decimal, push_str_chars, string_of, string_views};
use crate::stamp::{now_nanos, split_instant, utc_format_at};
use crate::trusted::format_utc;

verus! {

/// The quarantine directory on each operating system.
pub open spec fn quarantine_dir_for(os: OsType) -> Seq<char> {
    if os == OsType::Windows {
        "C:\\ProgramData\\IceNet\\Quarantine"@
    } else {
        "/var/lib/icenet/quarantine"@
    }
}

/// A process id that can be killed safely: not 0 (which would signal the
/// agent's own process group) and within the range of a signed 32-bit process
/// id (a larger value would turn negative and signal every process).
pub open spec fn is_safe_pid(pid: u32) -> bool {
    0 < pid <= 0x7fff_ffff
}

/// The action a detected threat calls for under `config`: quarantine the
/// file, terminate the process (only one that can be killed safely), or block
/// the remote endpoint, each only where the configuration allows it; nothing
/// for other events or without a detection.
pub open spec fn threat_action(config: Config, event: Event) -> Option<ActionType> {
    if event.detection is None {
        None
    } else {
        match event.event_data {
            EventData::File(f) => if config.agent.response.auto_quarantine {
                Some(ActionType::QuarantineFile { path: f.path })
            } else {
                None
            },
            EventData::Process(p) => if config.agent.response.allow_process_termination && is_safe_pid(
                p.process_id,
            ) {
                Some(ActionType::TerminateProcess { pid: p.process_id })
            } else {
                None
            },
            EventData::Network(n) => if config.agent.response.allow_network_blocking {
                Some(ActionType::BlockNetwork { address: n.remote_address, port: n.remote_port })
            } else {
                None
            },
            _ => None,
        }
    }
}

/// The chrono format of the time stamp that begins a quarantine file name.
pub open spec fn stamp_format() -> Seq<char> {
    "%Y%m%d_%H%M%S"@
}

/// The separator between a directory and a file name on each operating
/// system.
pub open spec fn path_separator(os: OsType) -> char {
    if os == OsType::Windows {
        '\\'
    } else {
        '/'
    }
}

/// The view of an optional string slice.
pub open spec fn opt_view(s: Option<&str>) -> Option<Seq<char>> {
    match s {
        Some(t) => Some(t@),
        None => None,
    }
}

/// The quarantine file name: the time stamp, `_`, and the original file name
/// (`unknown` where the path has none).
pub open spec fn quarantine_file_name(stamp: Seq<char>, file_name: Option<Seq<char>>) -> Seq<char> {
    let name = match file_name {
        Some(n) => n,
        None => "unknown"@,
    };
    stamp + seq!['_'] + name
}

/// A program and its arguments.
#[derive(Clone, Debug)]
pub struct FirewallCommand {
    pub program: String,
    pub args: Vec<String>,
}

/// The firewall program and arguments that block outgoing traffic to
/// `address:port`: a `netsh` rule on Windows, an `iptables` rule on Linux,
/// none on macOS.
pub open spec fn firewall_rule(os: OsType, address: Seq<char>, port: u16) -> Option<(Seq<char>, Seq<Seq<char>>)> {
    let p = decimal(port as nat);
    match os {
        OsType::Windows => Some((
            "netsh"@,
            seq![
                "advfirewall"@,
                "firewall"@,
                "add"@,
                "rule"@,
                "name=IceNet_Block_"@ + address + seq!['_'] + p,
                "dir=out"@,
                "action=block"@,
                "remoteip="@ + address,
                "remoteport="@ + p,
            ],
        )),
        OsType::Linux => Some((
            "iptables"@,
            seq!["-A"@, "OUTPUT"@, "-d"@, address, "-p"@, "tcp"@, "--dport"@, p, "-j"@, "DROP"@],
        )),
        OsType::MacOS => None,
    }
}

/// Decides and describes the agent's responses to detected threats.
pub struct ResponseHandler {
    config: Arc<Config>,
    os: OsType,
    quarantine_dir: String,
}

impl ResponseHandler {
    /// A handler for the given configuration, quarantining into this host's
    /// quarantine directory.
    pub fn new(config: Arc<Config>) -> (r: ResponseHandler)
        ensures
            r.config() == config,
            r.quarantine_dir_view() == quarantine_dir_for(r.os()),
    {
        ResponseHandler::for_os(config, current_os_type())
    }

    /// A handler for the given configuration on an `os` host.
    pub fn for_os(config: Arc<Config>, os: OsType) -> (r: ResponseHandler)
        ensures
            r.config() == config,
            r.os() == os,
            r.quarantine_dir_view() == quarantine_dir_for(os),
    {
        let quarantine_dir = if os == OsType::Windows {
            owned("C:\\ProgramData\\IceNet\\Quarantine")
        } else {
            owned("/var/lib/icenet/quarantine")
        };
        ResponseHandler { config, os, quarantine_dir }
    }

    /// The configuration the handler was made with.
    pub closed spec fn config(&self) -> Arc<Config> {
        self.config
    }

    /// The operating system family the handler acts for.
    pub closed spec fn os(&self) -> OsType {
        self.os
    }

    /// The quarantine directory.
    pub closed spec fn quarantine_dir_view(&self) -> Seq<char> {
        self.quarantine_dir@
    }

    /// The quarantine directory.
    pub fn quarantine_dir(&self) -> (r: &str)
        ensures
            r@ == self.quarantine_dir_view(),
    {
        self.quarantine_dir.as_str()
    }

    /// The action to take against the threat recorded in `event`, if any.
    pub fn handle_threat(&self, event: &Event) -> (r: Option<ActionType>)
        ensures
            r == threat_action(*self.config(), *event),
    {
        if event.detection.is_none() {
            return None;
        }
        match &event.event_data {
            EventData::File(file_event) => {
                if self.config.agent.response.auto_quarantine {
                    return Some(ActionType::QuarantineFile { path: file_event.path.clone() });
                }
            },
            EventData::Process(proc_event) => {
                if self.config.agent.response.allow_process_termination && proc_event.process_id > 0
                    && proc_event.process_id <= 0x7fff_ffff {
                    return Some(ActionType::TerminateProcess { pid: proc_event.process_id });
                }
            },
            EventData::Network(net_event) => {
                if self.config.agent.response.allow_network_blocking {
                    return Some(
                        ActionType::BlockNetwork {
                            address: net_event.remote_address.clone(),
                            port: net_event.remote_port,
                        },
                    );
                }
            },
            _ => {},
        }
        None
    }

    /// Where `file_path`, whose final component is `file_name` (as
    /// `Path::file_name` finds it), goes in quarantine at the instant `now`,
    /// and the record kept of it; `None` where `now` cannot be rendered as a
    /// date.
    pub fn quarantine_record(&self, file_path: &str, file_name: Option<&str>, reason: &str, now: i128) -> (r:
        Option<QuarantineInfo>)
        ensures
            r is None <==> utc_format_at(now as int, stamp_format()) is None,
            r matches Some(q) ==> {
                &&& q.original_path@ == file_path@
                &&& q.quarantine_path@ == self.quarantine_dir_view() + seq![path_separator(self.os())]
                    + quarantine_file_name(utc_format_at(now as int, stamp_format())->0, opt_view(file_name))
                &&& q.timestamp == now
                &&& q.reason@ == reason@
            },
    {
        let (secs, nanos) = match split_instant(now) {
            Some(parts) => parts,
            None => return None,
        };
        let stamp = match format_utc(secs, nanos, "%Y%m%d_%H%M%S") {
            Some(s) => s,
            None => return None,
        };
        let mut path: Vec<char> = chars_of(self.quarantine_dir.as_str());
        if self.os == OsType::Windows {
            path.push('\\');
        } else {
            path.push('/');
        }
        push_str_chars(&mut path, stamp.as_str());
        path.push('_');
        match file_name {
            Some(n) => push_str_chars(&mut path, n),
            None => push_str_chars(&mut path, "unknown"),
        }
        assert(path@ =~= self.quarantine_dir_view() + seq![path_separator(self.os())]
            + quarantine_file_name(stamp@, opt_view(file_name)));
        Some(QuarantineInfo {
            original_path: owned(file_path),
            quarantine_path: string_of(&path),
            timestamp: now,
            reason: owned(reason),
        })
    }

    /// Where `file_path`, whose final component is `file_name`, goes in
    /// quarantine now, and the record kept of it; `None` where the time cannot
    /// be read or rendered.
    pub fn quarantine_record_now(&self, file_path: &str, file_name: Option<&str>, reason: &str) -> (r:
        Option<QuarantineInfo>)
        ensures
            r matches Some(q) ==> {
                &&& q.original_path@ == file_path@
                &&& q.timestamp >= 0
                &&& utc_format_at(q.timestamp as int, stamp_format()) is Some
                &&& q.quarantine_path@ == self.quarantine_dir_view() + seq![path_separator(self.os())]
                    + quarantine_file_name(utc_format_at(q.timestamp as int, stamp_format())->0, opt_view(file_name))
                &&& q.reason@ == reason@
            },
    {
        match now_nanos() {
            Some(now) => self.quarantine_record(file_path, file_name, reason, now),
            None => None,
        }
    }

    /// The firewall command that blocks `address:port` on this host.
    pub fn block_command(&self, address: &str, port: u16) -> (r: Option<FirewallCommand>)
        ensures
            firewall_rule(self.os(), address@, port) == match r {
                Some(c) => Some((c.program@, string_views(c.args@))),
                None => None::<(Seq<char>, Seq<Seq<char>>)>,
            },
    {
        block_command_for_os(self.os, address, port)
    }
}

/// A detected threat in a connection is answered by blocking its remote
/// address and port whenever the configuration allows network blocking,
/// whatever the port; otherwise nothing is done.
pub proof fn lemma_detected_connection_is_blocked(config: Config, r: Event, n: NetworkEvent)
    requires
        r.detection is Some,
        r.event_data == EventData::Network(n),
    ensures
        config.agent.response.allow_network_blocking ==> threat_action(config, r) == Some(
            ActionType::BlockNetwork { address: n.remote_address, port: n.remote_port },
        ),
        !config.agent.response.allow_network_blocking ==> threat_action(config, r) is None,
{
}

/// A detected threat in a file is answered by quarantining that file whenever
/// the configuration allows automatic quarantine, whatever the file;
/// otherwise nothing is done.
pub proof fn lemma_detected_file_is_quarantined(config: Config, r: Event, f: FileEvent)
    requires
        r.detection is Some,
        r.event_data == EventData::File(f),
    ensures
        config.agent.response.auto_quarantine ==> threat_action(config, r) == Some(
            ActionType::QuarantineFile { path: f.path },
        ),
        !config.agent.response.auto_quarantine ==> threat_action(config, r) is None,
{
}

/// A detected threat in a process is answered by terminating it exactly when
/// the configuration allows process termination and its id is neither 0 nor
/// above the largest signed 32-bit value.
pub proof fn lemma_detected_process_is_terminated(config: Config, r: Event, p: ProcessEvent)
    requires
        r.detection is Some,
        r.event_data == EventData::Process(p),
    ensures
        config.agent.response.allow_process_termination && 0 < p.process_id <= 2147483647
            ==> threat_action(config, r) == Some(ActionType::TerminateProcess { pid: p.process_id }),
        !(config.agent.response.allow_process_termination && 0 < p.process_id <= 2147483647)
            ==> threat_action(config, r) is None,
{
}

/// Registry and other events, and events without a detection, call for no
/// action.
pub proof fn lemma_other_events_need_no_action(config: Config, r: Event)
    requires
        r.detection is None || !(r.event_data is File || r.event_data is Process || r.event_data is Network),
    ensures
        threat_action(config, r) is None,
{
}

/// A file that analysis flags as encrypted by ransomware is quarantined
/// whenever the configuration allows automatic quarantine.
pub proof fn lemma_ransomware_file_is_quarantined(config: Config, e: Event, r: Event, f: FileEvent)
    requires
        analyzed(r, e),
        e.event_data == EventData::File(f),
        is_ransomware_path(f.path@),
        config.agent.response.auto_quarantine,
    ensures
        threat_action(config, r) == Some(ActionType::QuarantineFile { path: f.path }),
{
}

/// A process that analysis flags for its command line is terminated whenever
/// the configuration allows process termination and its id can be killed
/// safely.
pub proof fn lemma_suspicious_process_is_terminated(config: Config, e: Event, r: Event, p: ProcessEvent)
    requires
        analyzed(r, e),
        e.event_data == EventData::Process(p),
        is_suspicious_command(p.command_line@),
        config.agent.response.allow_process_termination,
        is_safe_pid(p.process_id),
    ensures
        threat_action(config, r) == Some(ActionType::TerminateProcess { pid: p.process_id }),
{
}

/// A process whose id cannot be killed safely is never terminated.
pub proof fn lemma_unsafe_pid_is_never_terminated(config: Config, r: Event, p: ProcessEvent)
    requires
        r.event_data == EventData::Process(p),
        !is_safe_pid(p.process_id),
    ensures
        threat_action(config, r) is None,
{
}

/// An event that analysis leaves without a detection calls for no action.
pub proof fn lemma_clean_event_needs_no_action(config: Config, e: Event, r: Event)
    requires
        analyzed(r, e),
        r.detection is None,
    ensures
        threat_action(config, r) is None,
{
}

/// Appends `s` as a new string to `v`.
fn push_string(v: &mut Vec<String>, s: String)
    ensures
        string_views(final(v)@) == string_views(old(v)@).push(s@),
{
    v.push(s);
    assert(string_views(final(v)@) =~= string_views(old(v)@).push(s@));
}

/// A string made of a literal followed by some characters.
fn literal_then(lit: &str, rest: &Vec<char>) -> (r: String)
    ensures
        r@ == lit@ + rest@,
{
    let mut cs: Vec<char> = chars_of(lit);
    push_chars(&mut cs, rest);
    string_of(&cs)
}

/// The firewall command that blocks `address:port` on an `os` host.
pub fn block_command_for_os(os: OsType, address: &str, port: u16) -> (r: Option<FirewallCommand>)
    ensures
        firewall_rule(os, address@, port) == match r {
            Some(c) => Some((c.program@, string_views(c.args@))),
            None => None::<(Seq<char>, Seq<Seq<char>>)>,
        },
{
    let mut p: Vec<char> = Vec::new();
    push_decimal(&mut p, port as u64);
    assert(p@ =~= decimal(port as nat));
    let a = chars_of(address);
    match os {
        OsType::Windows => {
            let mut name = chars_of("name=IceNet_Block_");
            push_chars(&mut name, &a);
            name.push('_');
            push_chars(&mut name, &p);
            assert(name@ =~= "name=IceNet_Block_"@ + address@ + seq!['_'] + decimal(port as nat));
            let mut args: Vec<String> = Vec::new();
            push_string(&mut args, owned("advfirewall"));
            push_string(&mut args, owned("firewall"));
            push_string(&mut args, owned("add"));
            push_string(&mut args, owned("rule"));
            push_string(&mut args, string_of(&name));
            push_string(&mut args, owned("dir=out"));
            push_string(&mut args, owned("action=block"));
            push_string(&mut args, literal_then("remoteip=", &a));
            push_string(&mut args, literal_then("remoteport=", &p));
            let ghost want = firewall_rule(os, address@, port).unwrap().1;
            assert(string_views(args@) =~= want);
            Some(FirewallCommand { program: owned("netsh"), args })
        },
        OsType::Linux => {
            let mut args: Vec<String> = Vec::new();
            push_string(&mut args, owned("-A"));
            push_string(&mut args, owned("OUTPUT"));
            push_string(&mut args, owned("-d"));
            push_string(&mut args, owned(address));
            push_string(&mut args, owned("-p"));
            push_string(&mut args, owned("tcp"));
            push_string(&mut args, owned("--dport"));
            push_string(&mut args, string_of(&p));
            push_string(&mut args, owned("-j"));
            push_string(&mut args, owned("DROP"));
            let ghost want = firewall_rule(os, address@, port).unwrap().1;
            assert(string_views(args@) =~= want);
            Some(FirewallCommand { program: owned("iptables"), args })
        },
        OsType::MacOS => None,
    }
}

} // verus!
