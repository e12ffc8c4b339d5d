//! The process monitor's rules: which processes started and ended between two
//! snapshots, which to leave out, and how to rate a new process.
use vstd::prelude::*;

use std::collections::HashSet;
use std::sync::Arc;

use crate::config::Config;
use crate::digest::{sha256_hex, sha256_hex_of};
use crate::models::{Event, EventData, EventType, ProcessEvent, ProcessOperation, Severity};
use crate::stamp::{is_stamped, new_event, EventStamp};
use crate::text::{chars_of, contains_chars, contains_str, is_substring, lowercase, owned, push_chars, string_of, string_views, to_lowercase};

verus! {

use vstd::std_specs::hash::spec_hash_keys_iter;
use vstd::std_specs::iter::IteratorSpec;

broadcast use vstd::seq_lib::group_seq_properties;

/// What a process snapshot tells about a newly seen process.
#[derive(Clone, Debug)]
pub struct ProcessFacts {
    pub name: String,
    pub parent_pid: Option<u32>,
    pub exe_path: Option<String>,
    /// The command line, argument by argument.
    pub cmd: Vec<String>,
    /// The user the process runs as, as the snapshot renders it.
    pub user: String,
    /// The executable's contents, where they were read.
    pub exe_contents: Option<Vec<u8>>,
}

/// Process names (in lower case) of interpreters and tools often abused.
pub open spec fn suspicious_process_names() -> Seq<Seq<char>> {
    seq![
        "powershell"@,
        "cmd.exe"@,
        "wscript"@,
        "cscript"@,
        "regsvr32"@,
        "rundll32"@,
        "mshta"@,
        "certutil"@,
        "bitsadmin"@,
        "wmic"@,
    ]
}

/// Command-line arguments (in lower case) that hide or fetch code.
pub open spec fn suspicious_arguments() -> Seq<Seq<char>> {
    seq![
        "-enc"@,
        "-encodedcommand"@,
        "downloadstring"@,
        "invoke-expression"@,
        "iex"@,
        "bypass"@,
        "hidden"@,
        "-w hidden"@,
    ]
}

/// `s` (lower-cased) contains one of `needles`.
pub open spec fn lower_contains_any(s: Seq<char>, needles: Seq<Seq<char>>) -> bool {
    exists|i: int| 0 <= i < needles.len() && is_substring(#[trigger] needles[i], lowercase(s))
}

/// Severity of a new process: a suspicious tool is `High` with a suspicious
/// argument and `Medium` without; a program run from a temporary directory is
/// `Medium`; anything else is `Low`.
pub open spec fn process_severity(name: Seq<char>, cmd_line: Seq<char>, exe_path: Seq<char>) -> Severity {
    if lower_contains_any(name, suspicious_process_names()) {
        if lower_contains_any(cmd_line, suspicious_arguments()) {
            Severity::High
        } else {
            Severity::Medium
        }
    } else if is_substring("Temp"@, exe_path) || is_substring("tmp"@, exe_path) || is_substring(
        "AppData\\Local\\Temp"@,
        exe_path,
    ) {
        Severity::Medium
    } else {
        Severity::Low
    }
}

/// The words joined with single spaces.
pub open spec fn join_with_spaces(words: Seq<Seq<char>>) -> Seq<char>
    decreases words.len(),
{
    if words.len() == 0 {
        seq![]
    } else if words.len() == 1 {
        words[0]
    } else {
        join_with_spaces(words.drop_last()) + seq![' '] + words.last()
    }
}

/// The process name contains one of the excluded names.
pub open spec fn process_excluded(excluded: Seq<String>, name: Seq<char>) -> bool {
    exists|i: int| 0 <= i < excluded.len() && is_substring(#[trigger] excluded[i]@, name)
}

/// `e` is the event for the new process `pid` described by `facts`.
pub open spec fn is_process_created_event(
    e: Event,
    stamp: EventStamp,
    agent_id: u128,
    pid: u32,
    facts: ProcessFacts,
) -> bool {
    let cmd_line = join_with_spaces(string_views(facts.cmd@));
    let exe_path = match facts.exe_path {
        Some(p) => p@,
        None => seq![],
    };
    let parent = match facts.parent_pid {
        Some(p) => p,
        None => 0u32,
    };
    &&& is_stamped(e, stamp, agent_id)
    &&& e.event_type == EventType::ProcessCreated
    &&& e.severity == process_severity(facts.name@, cmd_line, exe_path)
    &&& e.event_data matches EventData::Process(p) && {
        &&& p.process_id == pid
        &&& p.parent_process_id == parent
        &&& p.process_name@ == facts.name@
        &&& p.command_line@ == cmd_line
        &&& p.executable_path@ == exe_path
        &&& p.user@ == facts.user@
        &&& p.parent_name@ == if parent != 0 {
            "unknown"@
        } else {
            "none"@
        }
        &&& p.operation == ProcessOperation::Create
        &&& match p.hash_sha256 {
            Some(h) => facts.exe_path is Some && (facts.exe_contents matches Some(c) && h@
                == sha256_hex_of(c@)),
            None => facts.exe_path is None || facts.exe_contents is None,
        }
    }
}

/// `e` is the event for the ended process `pid`.
pub open spec fn is_process_terminated_event(e: Event, stamp: EventStamp, agent_id: u128, pid: u32) -> bool {
    &&& is_stamped(e, stamp, agent_id)
    &&& e.event_type == EventType::ProcessTerminated
    &&& e.severity == Severity::Low
    &&& e.event_data matches EventData::Process(p) && {
        &&& p.process_id == pid
        &&& p.parent_process_id == 0
        &&& p.process_name@ == "unknown"@
        &&& p.command_line@.len() == 0
        &&& p.executable_path@.len() == 0
        &&& p.user@.len() == 0
        &&& p.hash_sha256 is None
        &&& p.parent_name@.len() == 0
        &&& p.operation == ProcessOperation::Terminate
    }
}

/// The processes of the snapshot `current` that were not known before.
pub open spec fn started(known: Set<u32>, current: Seq<u32>) -> Set<u32> {
    current.to_set().difference(known)
}

/// The known processes that the snapshot `current` no longer holds.
pub open spec fn ended(known: Set<u32>, current: Seq<u32>) -> Set<u32> {
    known.difference(current.to_set())
}

/// The set of the values in `v`.
fn set_of(v: &Vec<u32>) -> (r: HashSet<u32>)
    ensures
        r@ == v@.to_set(),
{
    broadcast use vstd::std_specs::hash::group_hash_axioms;
    let mut out: HashSet<u32> = HashSet::new();
    let mut i: usize = 0;
    while i < v.len()
        invariant
            i <= v.len(),
            out@ == v@.take(i as int).to_set(),
        decreases v.len() - i,
    {
        assert(v@.take(i + 1) =~= v@.take(i as int).push(v@[i as int]));
        proof {
            v@.take(i as int).lemma_push_to_set_commute(v@[i as int]);
        }
        out.insert(v[i]);
        i += 1;
    }
    assert(v@.take(v.len() as int) =~= v@);
    out
}

/// The elements of `a` that `b` does not hold, each once, in the order in
/// which `a` hands them out.
fn set_difference(a: &HashSet<u32>, b: &HashSet<u32>) -> (r: Vec<u32>)
    ensures
        r@.no_duplicates(),
        forall|x: u32| r@.contains(x) <==> (a@.contains(x) && !b@.contains(x)),
{
    broadcast use vstd::std_specs::hash::group_hash_axioms;
    let mut out: Vec<u32> = Vec::new();
    let ghost keys = spec_hash_keys_iter(a).remaining();
    for x in it: a.iter()
        invariant
            keys == spec_hash_keys_iter(a).remaining(),
            it.seq() == keys,
            keys.no_duplicates(),
            out@.no_duplicates(),
            forall|y: u32| out@.contains(y) <==> (exists|k: int| 0 <= k < it.index() && *keys[k] == y) && !b@.contains(y),
    {
        let ghost i = it.index();
        assert(*keys[i] == *x);
        if !b.contains(x) {
            proof {
                if out@.contains(*x) {
                    let k = choose|k: int| 0 <= k < i && *keys[k] == *x;
                    assert(keys[k] == keys[i]);
                }
            }
            out.push(*x);
        }
    }
    proof {
        assert forall|y: u32| a@.contains(y) implies (exists|k: int| 0 <= k < keys.len() && *keys[k] == y) by {
            assert(keys.unref().to_set().contains(y));
            let k = choose|k: int| 0 <= k < keys.unref().len() && keys.unref()[k] == y;
            assert(*keys[k] == y);
        }
        assert forall|k: int| 0 <= k < keys.len() implies a@.contains(*keys[k]) by {
            assert(keys.unref()[k] == *keys[k]);
            assert(keys.unref().to_set().contains(keys.unref()[k]));
        }
    }
    out
}

/// Watches the process table and turns changes into events.
pub struct ProcessMonitor {
    config: Arc<Config>,
    known_processes: HashSet<u32>,
}

impl ProcessMonitor {
    /// A monitor for the given configuration that knows of no process yet.
    pub fn new(config: Arc<Config>) -> (r: ProcessMonitor)
        ensures
            r.config() == config,
            r.known() == Set::<u32>::empty(),
    {
        broadcast use vstd::std_specs::hash::group_hash_axioms;
        ProcessMonitor { config, known_processes: HashSet::new() }
    }

    /// The configuration the monitor was made with.
    pub closed spec fn config(&self) -> Arc<Config> {
        self.config
    }

    /// The process ids seen in the last snapshot.
    pub closed spec fn known(&self) -> Set<u32> {
        self.known_processes@
    }

    /// Takes the first snapshot: its processes are known, and reported as
    /// neither started nor ended.
    pub fn initialize(&mut self, pids: &Vec<u32>)
        ensures
            final(self).config() == old(self).config(),
            final(self).known() == old(self).known().union(pids@.to_set()),
    {
        broadcast use vstd::std_specs::hash::group_hash_axioms;
        let mut i: usize = 0;
        while i < pids.len()
            invariant
                i <= pids.len(),
                self.config == old(self).config,
                self.known_processes@ == old(self).known_processes@.union(pids@.take(i as int).to_set()),
            decreases pids.len() - i,
        {
            assert(pids@.take(i + 1) =~= pids@.take(i as int).push(pids@[i as int]));
            proof {
                pids@.take(i as int).lemma_push_to_set_commute(pids@[i as int]);
            }
            self.known_processes.insert(pids[i]);
            assert(self.known_processes@ =~= old(self).known_processes@.union(pids@.take(i + 1).to_set()));
            i += 1;
        }
        assert(pids@.take(pids.len() as int) =~= pids@);
    }

    /// Compares a new snapshot with the known processes: returns the ids that
    /// appeared and those that disappeared (each once, in no stated order),
    /// and knows the new snapshot from then on.
    pub fn refresh(&mut self, current: &Vec<u32>) -> (r: (Vec<u32>, Vec<u32>))
        ensures
            final(self).config() == old(self).config(),
            final(self).known() == current@.to_set(),
            r.0@.no_duplicates(),
            r.1@.no_duplicates(),
            r.0@.to_set() == started(old(self).known(), current@),
            r.1@.to_set() == ended(old(self).known(), current@),
    {
        let snapshot = set_of(current);
        let created = set_difference(&snapshot, &self.known_processes);
        let terminated = set_difference(&self.known_processes, &snapshot);
        assert(created@.to_set() =~= started(old(self).known(), current@));
        assert(terminated@.to_set() =~= ended(old(self).known(), current@));
        self.known_processes = snapshot;
        (created, terminated)
    }

    /// Whether the process name contains one of the configured excluded names.
    pub fn is_excluded(&self, process_name: &str) -> (r: bool)
        ensures
            r == process_excluded(self.config().agent.monitoring.excluded_processes@, process_name@),
    {
        let name = chars_of(process_name);
        let excluded = &self.config.agent.monitoring.excluded_processes;
        let mut i: usize = 0;
        while i < excluded.len()
            invariant
                i <= excluded.len(),
                name@ == process_name@,
                excluded@ == self.config().agent.monitoring.excluded_processes@,
                forall|k: int| 0 <= k < i ==> !is_substring(#[trigger] excluded@[k]@, name@),
            decreases excluded.len() - i,
        {
            let e = chars_of(excluded[i].as_str());
            if contains_chars(&name, &e) {
                assert(is_substring(excluded@[i as int]@, process_name@));
                return true;
            }
            i += 1;
        }
        false
    }

    /// The lower-case hexadecimal SHA-256 of an executable's contents.
    pub fn calculate_hash(&self, contents: &[u8]) -> (r: String)
        ensures
            r@ == sha256_hex_of(contents@),
    {
        sha256_hex(contents)
    }

    /// The severity of a new process.
    pub fn calculate_severity(&self, process_name: &str, cmd_line: &str, exe_path: &str) -> (r: Severity)
        ensures
            r == process_severity(process_name@, cmd_line@, exe_path@),
    {
        let names: [&str; 10] = [
            "powershell", "cmd.exe", "wscript", "cscript", "regsvr32",
            "rundll32", "mshta", "certutil", "bitsadmin", "wmic",
        ];
        let args: [&str; 8] = [
            "-enc", "-encodedcommand", "downloadstring", "invoke-expression",
            "iex", "bypass", "hidden", "-w hidden",
        ];
        assert(names@.map_values(|s: &str| s@) =~= suspicious_process_names());
        assert(args@.map_values(|s: &str| s@) =~= suspicious_arguments());
        if lower_contains_one(process_name, names.as_slice()) {
            if lower_contains_one(cmd_line, args.as_slice()) {
                return Severity::High;
            }
            return Severity::Medium;
        }
        let exe = chars_of(exe_path);
        if contains_str(&exe, "Temp") || contains_str(&exe, "tmp") || contains_str(&exe, "AppData\\Local\\Temp") {
            return Severity::Medium;
        }
        Severity::Low
    }

    /// The event for a new process, or `None` where its name is excluded.
    pub fn process_created_event(&self, stamp: EventStamp, pid: u32, facts: ProcessFacts) -> (r: Option<Event>)
        ensures
            r is None <==> process_excluded(self.config().agent.monitoring.excluded_processes@, facts.name@),
            r matches Some(e) ==> is_process_created_event(e, stamp, self.config().agent.agent_id, pid, facts),
    {
        let ghost facts0 = facts;
        if self.is_excluded(facts.name.as_str()) {
            return None;
        }
        let parent_pid: u32 = match facts.parent_pid {
            Some(p) => p,
            None => 0,
        };
        let exe_path: String = match &facts.exe_path {
            Some(p) => p.clone(),
            None => String::new(),
        };
        let cmd_line = join_words(&facts.cmd);
        let hash_sha256 = match &facts.exe_path {
            Some(_) => match &facts.exe_contents {
                Some(c) => Some(self.calculate_hash(c.as_slice())),
                None => None,
            },
            None => None,
        };
        let parent_name = if parent_pid != 0 {
            owned("unknown")
        } else {
            owned("none")
        };
        let severity = self.calculate_severity(facts.name.as_str(), cmd_line.as_str(), exe_path.as_str());
        let process_event = ProcessEvent {
            process_id: pid,
            parent_process_id: parent_pid,
            process_name: facts.name,
            command_line: cmd_line,
            executable_path: exe_path,
            user: facts.user,
            hash_sha256,
            parent_name,
            operation: ProcessOperation::Create,
        };
        let r = new_event(
            stamp,
            self.config.agent.agent_id,
            EventType::ProcessCreated,
            severity,
            EventData::Process(process_event),
        );
        assert(is_process_created_event(r, stamp, self.config().agent.agent_id, pid, facts0));
        Some(r)
    }

    /// The event for a process that ended.
    pub fn process_terminated_event(&self, stamp: EventStamp, pid: u32) -> (r: Event)
        ensures
            is_process_terminated_event(r, stamp, self.config().agent.agent_id, pid),
    {
        let process_event = ProcessEvent {
            process_id: pid,
            parent_process_id: 0,
            process_name: owned("unknown"),
            command_line: String::new(),
            executable_path: String::new(),
            user: String::new(),
            hash_sha256: None,
            parent_name: String::new(),
            operation: ProcessOperation::Terminate,
        };
        new_event(
            stamp,
            self.config.agent.agent_id,
            EventType::ProcessTerminated,
            Severity::Low,
            EventData::Process(process_event),
        )
    }
}

/// The lower-cased name contains one of the ten tools often abused.
pub open spec fn names_listed_tool(l: Seq<char>) -> bool {
    is_substring("powershell"@, l) || is_substring("cmd.exe"@, l) || is_substring("wscript"@, l) || is_substring("cscript"@, l) || is_substring("regsvr32"@, l) || is_substring("rundll32"@, l) || is_substring("mshta"@, l) || is_substring("certutil"@, l) || is_substring("bitsadmin"@, l) || is_substring("wmic"@, l)
}

/// The lower-cased command line contains one of the eight arguments that hide
/// or fetch code.
pub open spec fn has_listed_argument(l: Seq<char>) -> bool {
    is_substring("-enc"@, l) || is_substring("-encodedcommand"@, l) || is_substring("downloadstring"@, l) || is_substring("invoke-expression"@, l) || is_substring("iex"@, l) || is_substring("bypass"@, l) || is_substring("hidden"@, l) || is_substring("-w hidden"@, l)
}

/// The severity of a new process: a process whose lower-cased name contains
/// `powershell`, `cmd.exe`, `wscript`, `cscript`, `regsvr32`, `rundll32`,
/// `mshta`, `certutil`, `bitsadmin` or `wmic` is `High` when its lower-cased
/// command line contains `-enc`, `-encodedcommand`, `downloadstring`,
/// `invoke-expression`, `iex`, `bypass`, `hidden` or `-w hidden`, and
/// `Medium` otherwise; any other process is `Medium` when its executable path
/// contains `Temp`, `tmp` or `AppData\Local\Temp`, and `Low` otherwise.
pub proof fn lemma_process_severity_rules(name: Seq<char>, cmd_line: Seq<char>, exe_path: Seq<char>)
    ensures
        process_severity(name, cmd_line, exe_path) == if names_listed_tool(lowercase(name)) {
            if has_listed_argument(lowercase(cmd_line)) {
                Severity::High
            } else {
                Severity::Medium
            }
        } else if is_substring("Temp"@, exe_path) || is_substring("tmp"@, exe_path) || is_substring(
            "AppData\\Local\\Temp"@,
            exe_path,
        ) {
            Severity::Medium
        } else {
            Severity::Low
        },
        is_substring("powershell"@, lowercase(name)) && is_substring("bypass"@, lowercase(cmd_line)) ==> process_severity(name, cmd_line, exe_path) == Severity::High,
        is_substring("cmd.exe"@, lowercase(name)) && is_substring("bypass"@, lowercase(cmd_line)) ==> process_severity(name, cmd_line, exe_path) == Severity::High,
        is_substring("wscript"@, lowercase(name)) && is_substring("bypass"@, lowercase(cmd_line)) ==> process_severity(name, cmd_line, exe_path) == Severity::High,
        is_substring("cscript"@, lowercase(name)) && is_substring("bypass"@, lowercase(cmd_line)) ==> process_severity(name, cmd_line, exe_path) == Severity::High,
        is_substring("regsvr32"@, lowercase(name)) && is_substring("bypass"@, lowercase(cmd_line)) ==> process_severity(name, cmd_line, exe_path) == Severity::High,
        is_substring("rundll32"@, lowercase(name)) && is_substring("bypass"@, lowercase(cmd_line)) ==> process_severity(name, cmd_line, exe_path) == Severity::High,
        is_substring("mshta"@, lowercase(name)) && is_substring("bypass"@, lowercase(cmd_line)) ==> process_severity(name, cmd_line, exe_path) == Severity::High,
        is_substring("certutil"@, lowercase(name)) && is_substring("bypass"@, lowercase(cmd_line)) ==> process_severity(name, cmd_line, exe_path) == Severity::High,
        is_substring("bitsadmin"@, lowercase(name)) && is_substring("bypass"@, lowercase(cmd_line)) ==> process_severity(name, cmd_line, exe_path) == Severity::High,
        is_substring("wmic"@, lowercase(name)) && is_substring("bypass"@, lowercase(cmd_line)) ==> process_severity(name, cmd_line, exe_path) == Severity::High,
        is_substring("powershell"@, lowercase(name)) && is_substring("-enc"@, lowercase(cmd_line)) ==> process_severity(name, cmd_line, exe_path) == Severity::High,
        is_substring("powershell"@, lowercase(name)) && is_substring("-encodedcommand"@, lowercase(cmd_line)) ==> process_severity(name, cmd_line, exe_path) == Severity::High,
        is_substring("powershell"@, lowercase(name)) && is_substring("downloadstring"@, lowercase(cmd_line)) ==> process_severity(name, cmd_line, exe_path) == Severity::High,
        is_substring("powershell"@, lowercase(name)) && is_substring("invoke-expression"@, lowercase(cmd_line)) ==> process_severity(name, cmd_line, exe_path) == Severity::High,
        is_substring("powershell"@, lowercase(name)) && is_substring("iex"@, lowercase(cmd_line)) ==> process_severity(name, cmd_line, exe_path) == Severity::High,
        is_substring("powershell"@, lowercase(name)) && is_substring("bypass"@, lowercase(cmd_line)) ==> process_severity(name, cmd_line, exe_path) == Severity::High,
        is_substring("powershell"@, lowercase(name)) && is_substring("hidden"@, lowercase(cmd_line)) ==> process_severity(name, cmd_line, exe_path) == Severity::High,
        is_substring("powershell"@, lowercase(name)) && is_substring("-w hidden"@, lowercase(cmd_line)) ==> process_severity(name, cmd_line, exe_path) == Severity::High,
{
    assert(suspicious_process_names()[0] == "powershell"@);
    assert(suspicious_process_names()[1] == "cmd.exe"@);
    assert(suspicious_process_names()[2] == "wscript"@);
    assert(suspicious_process_names()[3] == "cscript"@);
    assert(suspicious_process_names()[4] == "regsvr32"@);
    assert(suspicious_process_names()[5] == "rundll32"@);
    assert(suspicious_process_names()[6] == "mshta"@);
    assert(suspicious_process_names()[7] == "certutil"@);
    assert(suspicious_process_names()[8] == "bitsadmin"@);
    assert(suspicious_process_names()[9] == "wmic"@);
    assert(suspicious_arguments()[0] == "-enc"@);
    assert(suspicious_arguments()[1] == "-encodedcommand"@);
    assert(suspicious_arguments()[2] == "downloadstring"@);
    assert(suspicious_arguments()[3] == "invoke-expression"@);
    assert(suspicious_arguments()[4] == "iex"@);
    assert(suspicious_arguments()[5] == "bypass"@);
    assert(suspicious_arguments()[6] == "hidden"@);
    assert(suspicious_arguments()[7] == "-w hidden"@);
    if lower_contains_any(name, suspicious_process_names()) {
        let i = choose|i: int|
            0 <= i < suspicious_process_names().len() && is_substring(
                #[trigger] suspicious_process_names()[i],
                lowercase(name),
            );
        assert(i == 0 || i == 1 || i == 2 || i == 3 || i == 4 || i == 5 || i == 6 || i == 7 || i == 8 || i == 9);
    }
    if names_listed_tool(lowercase(name)) {
        assert(lower_contains_any(name, suspicious_process_names()));
    }
    if lower_contains_any(cmd_line, suspicious_arguments()) {
        let i = choose|i: int|
            0 <= i < suspicious_arguments().len() && is_substring(
                #[trigger] suspicious_arguments()[i],
                lowercase(cmd_line),
            );
        assert(i == 0 || i == 1 || i == 2 || i == 3 || i == 4 || i == 5 || i == 6 || i == 7);
    }
    if has_listed_argument(lowercase(cmd_line)) {
        assert(lower_contains_any(cmd_line, suspicious_arguments()));
    }
}

/// A snapshot that holds exactly the known processes reports no process as
/// started or ended: refreshing twice with the same snapshot is quiet the
/// second time.
pub proof fn lemma_unchanged_snapshot_is_quiet(known: Set<u32>, current: Seq<u32>)
    requires
        known == current.to_set(),
    ensures
        started(known, current) == Set::<u32>::empty(),
        ended(known, current) == Set::<u32>::empty(),
{
    assert(started(known, current) =~= Set::<u32>::empty());
    assert(ended(known, current) =~= Set::<u32>::empty());
}

/// Whether `s`, lower-cased, contains one of `needles`.
fn lower_contains_one(s: &str, needles: &[&str]) -> (r: bool)
    ensures
        r == lower_contains_any(s@, needles@.map_values(|n: &str| n@)),
{
    let lower = to_lowercase(s);
    let cs = chars_of(lower.as_str());
    let ghost views = needles@.map_values(|n: &str| n@);
    let mut i: usize = 0;
    while i < needles.len()
        invariant
            i <= needles.len(),
            cs@ == lowercase(s@),
            views == needles@.map_values(|n: &str| n@),
            forall|k: int| 0 <= k < i ==> !is_substring(#[trigger] views[k], cs@),
        decreases needles.len() - i,
    {
        if contains_str(&cs, needles[i]) {
            assert(views[i as int] == needles@[i as int]@);
            return true;
        }
        i += 1;
    }
    false
}

/// The arguments joined with single spaces (`[String]::join(" ")`).
pub fn join_words(words: &Vec<String>) -> (r: String)
    ensures
        r@ == join_with_spaces(string_views(words@)),
{
    let ghost views = string_views(words@);
    let mut out: Vec<char> = Vec::new();
    let mut i: usize = 0;
    while i < words.len()
        invariant
            i <= words.len(),
            views == string_views(words@),
            out@ == join_with_spaces(views.take(i as int)),
        decreases words.len() - i,
    {
        let w = chars_of(words[i].as_str());
        assert(views.take(i + 1).drop_last() =~= views.take(i as int));
        assert(views.take(i + 1).last() == words@[i as int]@);
        if i > 0 {
            out.push(' ');
        } else {
            assert(views.take(1) =~= seq![views[0]]);
            assert(out@ =~= seq![]);
        }
        push_chars(&mut out, &w);
        assert(out@ =~= join_with_spaces(views.take(i + 1)));
        i += 1;
    }
    assert(views.take(words.len() as int) =~= views);
    string_of(&out)
}

} // verus!
