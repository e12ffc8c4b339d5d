//! The file system monitor's rules: which paths to watch, which changes to
//! report, and how to rate them.
use vstd::prelude::*;

use std::sync::Arc;

use crate::config::Config;
use crate::digest::{sha256_hex, sha256_hex_of};
use crate::models::{current_os_type, Event, EventData, EventType, FileEvent, FileOperation, OsType, Severity};
use crate::stamp::{is_stamped, new_event, EventStamp};
use crate::text::{
    chars_equal, chars_of, contains_str, has_prefix, is_substring, lowercase, owned,
    starts_with_chars, string_views, to_lowercase,
};

verus! {

/// The kind of a file system notification (the categories of the watcher's
/// event kinds).
#[derive(Clone, Copy, Debug, PartialEq, Eq, Structural)]
pub enum WatchKind {
    Any,
    Access,
    Create,
    Modify,
    Remove,
    Other,
}

/// What the monitor learned about a changed file, besides its path.
#[derive(Clone, Debug)]
pub struct FileFacts {
    /// The file's length, where its metadata could be read.
    pub size: Option<u64>,
    pub is_executable: bool,
    /// The file's contents, where they were read (only needed when the
    /// operation is a creation or a modification).
    pub contents: Option<Vec<u8>>,
    /// The process that observed the change (the agent itself).
    pub process_id: u32,
    pub process_name: String,
    pub user: String,
}

/// Directories watched on each operating system.
pub open spec fn watch_paths_for(os: OsType) -> Seq<Seq<char>> {
    match os {
        OsType::Windows => seq![
            "C:\\Users"@,
            "C:\\Windows\\System32"@,
            "C:\\Program Files"@,
            "C:\\Program Files (x86)"@,
            "C:\\ProgramData"@,
            "C:\\temp"@,
        ],
        OsType::MacOS => seq!["/Users"@, "/Applications"@, "/Library"@, "/System"@, "/tmp"@],
        OsType::Linux => seq!["/home"@, "/etc"@, "/var"@, "/usr/bin"@, "/usr/local/bin"@, "/tmp"@],
    }
}

/// The event type that reports a file operation: creations, modifications,
/// deletions and renames each have their own; an execution is reported as a
/// creation.
pub open spec fn file_event_type(op: FileOperation) -> EventType {
    match op {
        FileOperation::Create => EventType::FileCreated,
        FileOperation::Modify => EventType::FileModified,
        FileOperation::Delete => EventType::FileDeleted,
        FileOperation::Rename { .. } => EventType::FileRenamed,
        FileOperation::Execute => EventType::FileCreated,
    }
}

/// The file operation reported for a notification kind, if any.
pub open spec fn operation_for(kind: WatchKind) -> Option<FileOperation> {
    match kind {
        WatchKind::Create => Some(FileOperation::Create),
        WatchKind::Modify => Some(FileOperation::Modify),
        WatchKind::Remove => Some(FileOperation::Delete),
        _ => None,
    }
}

/// Creations and modifications are hashed.
pub open spec fn hashes_contents(op: FileOperation) -> bool {
    op == FileOperation::Create || op == FileOperation::Modify
}

/// Extensions (in lower case) of executable files on Windows.
pub open spec fn executable_extensions() -> Seq<Seq<char>> {
    seq!["exe"@, "dll"@, "sys"@, "bat"@, "ps1"@, "vbs"@]
}

/// Severity of a file change: executables in system binary directories are
/// `High`, other executables `Medium`, everything else `Low`.
pub open spec fn file_severity(path: Seq<char>, is_executable: bool) -> Severity {
    if is_executable {
        if is_substring("System32"@, path) || is_substring("/bin"@, path) || is_substring(
            "/sbin"@,
            path,
        ) {
            Severity::High
        } else {
            Severity::Medium
        }
    } else {
        Severity::Low
    }
}

/// The path starts with one of the excluded prefixes.
pub open spec fn path_excluded(excluded: Seq<String>, path: Seq<char>) -> bool {
    exists|i: int| 0 <= i < excluded.len() && has_prefix(path, #[trigger] excluded[i]@)
}

/// `e` is the event for a change of kind `op` to `path`.
pub open spec fn is_file_change_event(
    e: Event,
    stamp: EventStamp,
    agent_id: u128,
    path: String,
    op: FileOperation,
    facts: FileFacts,
) -> bool {
    &&& is_stamped(e, stamp, agent_id)
    &&& e.event_type == file_event_type(op)
    &&& e.severity == file_severity(path@, facts.is_executable)
    &&& e.event_data matches EventData::File(f) && {
        &&& f.path == path
        &&& f.operation == op
        &&& f.process_id == facts.process_id
        &&& f.process_name == facts.process_name
        &&& f.user == facts.user
        &&& f.hash_md5 is None
        &&& f.size == facts.size
        &&& f.is_executable == facts.is_executable
        &&& match f.hash_sha256 {
            Some(h) => hashes_contents(op) && (facts.contents matches Some(c) && h@
                == sha256_hex_of(c@)),
            None => !hashes_contents(op) || facts.contents is None,
        }
    }
}

/// Watches file system changes and turns them into events.
pub struct FileMonitor {
    config: Arc<Config>,
    os: OsType,
}

impl FileMonitor {
    /// A monitor for the given configuration on this host.
    pub fn new(config: Arc<Config>) -> (r: FileMonitor)
        ensures
            r.config() == config,
    {
        FileMonitor::for_os(config, current_os_type())
    }

    /// A monitor for the given configuration on an `os` host.
    pub fn for_os(config: Arc<Config>, os: OsType) -> (r: FileMonitor)
        ensures
            r.config() == config,
            r.os() == os,
    {
        FileMonitor { config, os }
    }

    /// The operating system family the monitor watches.
    pub closed spec fn os(&self) -> OsType {
        self.os
    }

    /// The configuration the monitor was made with.
    pub closed spec fn config(&self) -> Arc<Config> {
        self.config
    }

    /// The directories to watch on the monitor's host.
    pub fn get_watch_paths(&self) -> (r: Vec<String>)
        ensures
            string_views(r@) == watch_paths_for(self.os()),
    {
        watch_paths(self.os)
    }

    /// The operation to report for a notification about `path`, or `None`
    /// where the path is excluded or the kind is not reported.
    pub fn classify(&self, path: &str, kind: WatchKind) -> (r: Option<FileOperation>)
        ensures
            r == if path_excluded(self.config().agent.monitoring.excluded_paths@, path@) {
                None
            } else {
                operation_for(kind)
            },
    {
        if self.is_excluded(path) {
            return None;
        }
        match kind {
            WatchKind::Create => Some(FileOperation::Create),
            WatchKind::Modify => Some(FileOperation::Modify),
            WatchKind::Remove => Some(FileOperation::Delete),
            _ => None,
        }
    }

    /// Whether `path` starts with one of the configured excluded paths.
    pub fn is_excluded(&self, path: &str) -> (r: bool)
        ensures
            r == path_excluded(self.config().agent.monitoring.excluded_paths@, path@),
    {
        let p = chars_of(path);
        let excluded = &self.config.agent.monitoring.excluded_paths;
        let mut i: usize = 0;
        while i < excluded.len()
            invariant
                i <= excluded.len(),
                p@ == path@,
                excluded@ == self.config().agent.monitoring.excluded_paths@,
                forall|k: int| 0 <= k < i ==> !has_prefix(p@, #[trigger] excluded@[k]@),
            decreases excluded.len() - i,
        {
            let e = chars_of(excluded[i].as_str());
            if starts_with_chars(&p, &e) {
                assert(has_prefix(path@, excluded@[i as int]@));
                return true;
            }
            i += 1;
        }
        false
    }

    /// Whether the file contents need hashing for this operation.
    pub fn needs_hash(&self, op: &FileOperation) -> (r: bool)
        ensures
            r == hashes_contents(*op),
    {
        match op {
            FileOperation::Create => true,
            FileOperation::Modify => true,
            _ => false,
        }
    }

    /// The lower-case hexadecimal SHA-256 of a file's contents.
    pub fn calculate_hash(&self, contents: &[u8]) -> (r: String)
        ensures
            r@ == sha256_hex_of(contents@),
    {
        sha256_hex(contents)
    }

    /// The severity of a change to `path`.
    pub fn calculate_severity(&self, path: &str, is_executable: bool) -> (r: Severity)
        ensures
            r == file_severity(path@, is_executable),
    {
        if is_executable {
            let p = chars_of(path);
            if contains_str(&p, "System32") || contains_str(&p, "/bin") || contains_str(&p, "/sbin") {
                return Severity::High;
            }
            return Severity::Medium;
        }
        Severity::Low
    }

    /// The event for a change `op` to `path`.
    pub fn file_event(
        &self,
        stamp: EventStamp,
        path: String,
        op: FileOperation,
        facts: FileFacts,
    ) -> (r: Event)
        ensures
            is_file_change_event(r, stamp, self.config().agent.agent_id, path, op, facts),
    {
        let ghost facts0 = facts;
        let ghost path0 = path;
        let ghost op0 = op;
        let hash_sha256 = if self.needs_hash(&op) {
            match &facts.contents {
                Some(c) => Some(self.calculate_hash(c.as_slice())),
                None => None,
            }
        } else {
            None
        };
        let severity = self.calculate_severity(path.as_str(), facts.is_executable);
        let event_type = match &op {
            FileOperation::Create => EventType::FileCreated,
            FileOperation::Modify => EventType::FileModified,
            FileOperation::Delete => EventType::FileDeleted,
            FileOperation::Rename { .. } => EventType::FileRenamed,
            FileOperation::Execute => EventType::FileCreated,
        };
        let file_event = FileEvent {
            path,
            operation: op,
            process_id: facts.process_id,
            process_name: facts.process_name,
            user: facts.user,
            hash_sha256,
            hash_md5: None,
            size: facts.size,
            is_executable: facts.is_executable,
        };
        let r = new_event(
            stamp,
            self.config.agent.agent_id,
            event_type,
            severity,
            EventData::File(file_event),
        );
        assert(is_file_change_event(r, stamp, self.config().agent.agent_id, path0, op0, facts0));
        r
    }
}

/// Created and modified files are hashed, and nothing else is: the
/// contents are hashed for exactly these two operations.
pub proof fn lemma_hashed_operations(op: FileOperation)
    ensures
        hashes_contents(op) <==> (op is Create || op is Modify),
        hashes_contents(FileOperation::Create),
        hashes_contents(FileOperation::Modify),
        !hashes_contents(FileOperation::Delete),
        !hashes_contents(FileOperation::Execute),
{
}

/// What the event for a file change records: a created or modified file
/// whose contents were read carries the lower-case hexadecimal SHA-256 of
/// those contents, a deleted, renamed or executed file (or one whose contents
/// could not be read) carries no hash; the event type is `FileCreated`,
/// `FileModified`, `FileDeleted` or `FileRenamed` for a creation,
/// modification, deletion or rename (an execution is reported as a
/// creation); the severity is `High` for an executable whose path contains
/// `System32`, `/bin` or `/sbin`, `Medium` for any other executable and `Low`
/// for anything else.
pub proof fn lemma_file_event_contents(
    e: Event,
    stamp: EventStamp,
    agent_id: u128,
    path: String,
    op: FileOperation,
    facts: FileFacts,
)
    requires
        is_file_change_event(e, stamp, agent_id, path, op, facts),
    ensures
        e.event_data matches EventData::File(f) && {
            &&& f.path == path
            &&& f.operation == op
            &&& (op is Create || op is Modify) && facts.contents is Some ==> (f.hash_sha256 matches Some(h)
                && h@ == sha256_hex_of(facts.contents->0@))
            &&& !(op is Create || op is Modify) || facts.contents is None ==> f.hash_sha256 is None
        },
        op is Create ==> e.event_type == EventType::FileCreated,
        op is Modify ==> e.event_type == EventType::FileModified,
        op is Delete ==> e.event_type == EventType::FileDeleted,
        op is Rename ==> e.event_type == EventType::FileRenamed,
        op is Execute ==> e.event_type == EventType::FileCreated,
        facts.is_executable && (is_substring("System32"@, path@) || is_substring("/bin"@, path@)
            || is_substring("/sbin"@, path@)) ==> e.severity == Severity::High,
        facts.is_executable && !(is_substring("System32"@, path@) || is_substring("/bin"@, path@)
            || is_substring("/sbin"@, path@)) ==> e.severity == Severity::Medium,
        !facts.is_executable ==> e.severity == Severity::Low,
{
}

/// Notifications of creation, modification and removal are reported as a
/// creation, modification and deletion of each path that is not excluded;
/// other notifications are not reported.
pub proof fn lemma_reported_operations(kind: WatchKind)
    ensures
        kind == WatchKind::Create ==> operation_for(kind) == Some(FileOperation::Create),
        kind == WatchKind::Modify ==> operation_for(kind) == Some(FileOperation::Modify),
        kind == WatchKind::Remove ==> operation_for(kind) == Some(FileOperation::Delete),
        kind == WatchKind::Any || kind == WatchKind::Access || kind == WatchKind::Other
            ==> operation_for(kind) is None,
{
}

/// The executable extensions on Windows are `exe`, `dll`, `sys`, `bat`,
/// `ps1` and `vbs`, and no other.
pub proof fn lemma_executable_extensions(ext: Seq<char>)
    ensures
        executable_extensions().contains("exe"@),
        executable_extensions().contains("dll"@),
        executable_extensions().contains("sys"@),
        executable_extensions().contains("bat"@),
        executable_extensions().contains("ps1"@),
        executable_extensions().contains("vbs"@),
        executable_extensions().contains(ext) ==> ext == "exe"@ || ext == "dll"@ || ext == "sys"@
            || ext == "bat"@ || ext == "ps1"@ || ext == "vbs"@,
{
    assert(executable_extensions()[0] == "exe"@);
    assert(executable_extensions()[1] == "dll"@);
    assert(executable_extensions()[2] == "sys"@);
    assert(executable_extensions()[3] == "bat"@);
    assert(executable_extensions()[4] == "ps1"@);
    assert(executable_extensions()[5] == "vbs"@);
    if executable_extensions().contains(ext) {
        let i = choose|i: int| 0 <= i < executable_extensions().len() && executable_extensions()[i] == ext;
        assert(i == 0 || i == 1 || i == 2 || i == 3 || i == 4 || i == 5);
    }
}

/// The directories to watch on an `os` host.
pub fn watch_paths(os: OsType) -> (r: Vec<String>)
    ensures
        string_views(r@) == watch_paths_for(os),
{
    let mut v: Vec<String> = Vec::new();
    match os {
        OsType::Windows => {
            v.push(owned("C:\\Users"));
            v.push(owned("C:\\Windows\\System32"));
            v.push(owned("C:\\Program Files"));
            v.push(owned("C:\\Program Files (x86)"));
            v.push(owned("C:\\ProgramData"));
            v.push(owned("C:\\temp"));
        },
        OsType::MacOS => {
            v.push(owned("/Users"));
            v.push(owned("/Applications"));
            v.push(owned("/Library"));
            v.push(owned("/System"));
            v.push(owned("/tmp"));
        },
        OsType::Linux => {
            v.push(owned("/home"));
            v.push(owned("/etc"));
            v.push(owned("/var"));
            v.push(owned("/usr/bin"));
            v.push(owned("/usr/local/bin"));
            v.push(owned("/tmp"));
        },
    }
    assert(string_views(v@) =~= watch_paths_for(os));
    v
}

/// Whether a Windows file extension marks an executable (case-insensitive).
pub fn is_executable_extension(ext: &str) -> (r: bool)
    ensures
        r == executable_extensions().contains(lowercase(ext@)),
{
    let lower = to_lowercase(ext);
    let e = chars_of(lower.as_str());
    let names: [&str; 6] = ["exe", "dll", "sys", "bat", "ps1", "vbs"];
    let ghost views = names@.map_values(|s: &str| s@);
    assert(views =~= executable_extensions());
    let mut i: usize = 0;
    while i < 6
        invariant
            i <= 6,
            e@ == lowercase(ext@),
            views == executable_extensions(),
            views == names@.map_values(|s: &str| s@),
            forall|k: int| 0 <= k < i ==> views[k] != e@,
        decreases 6 - i,
    {
        let n = chars_of(names[i]);
        if chars_equal(&e, &n) {
            assert(views[i as int] == e@);
            return true;
        }
        i += 1;
    }
    assert(!views.contains(e@));
    false
}

/// Whether Unix permission bits `mode` allow execution by anyone.
pub fn mode_is_executable(mode: u32) -> (r: bool)
    ensures
        r == (mode & 0o111 != 0),
{
    mode & 0o111 != 0
}

} // verus!
