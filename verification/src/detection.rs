//! The detection engine: signature, behavioral and heuristic checks on events.
use vstd::prelude::*;

use std::sync::Arc;

use crate::config::Config;
use crate::models::{Detection, DetectionType, Event, EventData, FileEvent, ProcessEvent, Severity};
use crate::text::{
    chars_equal, chars_of, contains_str, ends_with_str, has_suffix, is_substring, lowercase, owned,
    string_views, to_lowercase,
};
use crate::stamp::{has_v4_bits, new_uuid};

verus! {

// ---------------------------------------------------------------------------
// Rules
// ---------------------------------------------------------------------------

/// Command-line fragments (in lower case) that mark a suspicious process.
pub open spec fn suspicious_command_patterns() -> Seq<Seq<char>> {
    seq![
        "powershell.exe -enc"@,
        "powershell -encodedcommand"@,
        "cmd.exe /c echo"@,
        "wscript.exe"@,
        "cscript.exe"@,
        "regsvr32 /s /u /i:http"@,
        "rundll32.exe javascript:"@,
        "mshta.exe http"@,
        "certutil -decode"@,
        "bitsadmin /transfer"@,
        "invoke-expression"@,
        "downloadstring"@,
        "iex(new-object"@,
    ]
}

/// File extensions (in lower case) left behind by ransomware.
pub open spec fn ransomware_extensions() -> Seq<Seq<char>> {
    seq![
        ".encrypted"@,
        ".locked"@,
        ".crypto"@,
        ".crypt"@,
        ".locky"@,
        ".cerber"@,
        ".wannacry"@,
        ".ryuk"@,
    ]
}

/// The hashes of known malware. The database is empty: no hash is known.
pub open spec fn is_known_malware_hash(hash: Seq<char>) -> bool {
    false
}

/// The lower-cased command line contains one of the suspicious patterns.
pub open spec fn is_suspicious_command(command_line: Seq<char>) -> bool {
    exists|i: int|
        0 <= i < suspicious_command_patterns().len() && is_substring(
            #[trigger] suspicious_command_patterns()[i],
            lowercase(command_line),
        )
}

/// The lower-cased path ends with one of the ransomware extensions.
pub open spec fn is_ransomware_path(path: Seq<char>) -> bool {
    exists|i: int|
        0 <= i < ransomware_extensions().len() && has_suffix(
            lowercase(path),
            #[trigger] ransomware_extensions()[i],
        )
}

/// The lower-cased path names a file `test.txt`: the harmless file that
/// checks that behavioral detection works.
pub open spec fn is_detection_test_path(path: Seq<char>) -> bool {
    let lower = lowercase(path);
    ||| lower == "test.txt"@
    ||| has_suffix(lower, "/test.txt"@)
    ||| has_suffix(lower, "\\test.txt"@)
}

/// A file event carries the hash of known malware.
pub open spec fn signature_hit(data: EventData) -> bool {
    &&& data matches EventData::File(f)
    &&& f.hash_sha256 matches Some(h)
    &&& is_known_malware_hash(h@)
}

/// A process event with a suspicious command line, or a file event whose
/// path looks encrypted by ransomware or names the detection test file.
pub open spec fn behavioral_hit(data: EventData) -> bool {
    match data {
        EventData::Process(p) => is_suspicious_command(p.command_line@),
        EventData::File(f) => is_ransomware_path(f.path@) || is_detection_test_path(f.path@),
        _ => false,
    }
}

/// `d` reports the known-malware hash `hash`.
pub open spec fn is_signature_detection(d: Detection, hash: Seq<char>) -> bool {
    &&& d.detection_type == DetectionType::Signature
    &&& d.malware_family matches Some(m) && m@ == "Generic.Malware"@
    &&& d.confidence_percent == 100
    &&& d.description@ == "Known malware hash detected"@
    &&& d.mitre_tactics@.len() == 0
    &&& d.mitre_techniques@.len() == 0
    &&& string_views(d.indicators@) == seq![hash]
}

/// `d` reports the suspicious command line `command_line`.
pub open spec fn is_process_detection(d: Detection, command_line: Seq<char>) -> bool {
    &&& d.detection_type == DetectionType::Behavioral
    &&& d.malware_family is None
    &&& d.confidence_percent == 75
    &&& d.description@ == "Suspicious process behavior detected"@
    &&& string_views(d.mitre_tactics@) == seq!["Execution"@]
    &&& string_views(d.mitre_techniques@) == seq!["T1059"@]
    &&& string_views(d.indicators@) == seq![command_line]
}

/// `d` reports ransomware activity on the file `path`.
pub open spec fn is_ransomware_detection(d: Detection, path: Seq<char>) -> bool {
    &&& d.detection_type == DetectionType::Behavioral
    &&& d.malware_family matches Some(m) && m@ == "Ransomware"@
    &&& d.confidence_percent == 85
    &&& d.description@ == "Potential ransomware activity detected"@
    &&& string_views(d.mitre_tactics@) == seq!["Impact"@]
    &&& string_views(d.mitre_techniques@) == seq!["T1486"@]
    &&& string_views(d.indicators@) == seq![path]
}

/// `d` reports the detection test file at `path`.
pub open spec fn is_test_file_detection(d: Detection, path: Seq<char>) -> bool {
    &&& d.detection_type == DetectionType::Behavioral
    &&& d.malware_family is None
    &&& d.confidence_percent == 100
    &&& d.description@ == "Detection test file written"@
    &&& d.mitre_tactics@.len() == 0
    &&& d.mitre_techniques@.len() == 0
    &&& string_views(d.indicators@) == seq![path]
}

/// `d` is the signature detection owed to `data`.
pub open spec fn is_signature_detection_for(d: Detection, data: EventData) -> bool {
    &&& data matches EventData::File(f)
    &&& f.hash_sha256 matches Some(h)
    &&& is_signature_detection(d, h@)
}

/// `d` is the behavioral detection owed to `data`.
pub open spec fn is_behavioral_detection_for(d: Detection, data: EventData) -> bool {
    match data {
        EventData::Process(p) => is_process_detection(d, p.command_line@),
        EventData::File(f) => if is_ransomware_path(f.path@) {
            is_ransomware_detection(d, f.path@)
        } else {
            is_test_file_detection(d, f.path@)
        },
        _ => false,
    }
}

/// `r` is `e` with only its severity and detection possibly changed.
pub open spec fn same_event_but_verdict(r: Event, e: Event) -> bool {
    &&& r.event_id == e.event_id
    &&& r.agent_id == e.agent_id
    &&& r.timestamp == e.timestamp
    &&& r.event_type == e.event_type
    &&& r.hostname == e.hostname
    &&& r.os_type == e.os_type
    &&& r.event_data == e.event_data
}

/// What `analyze` does to `e`: a signature hit, then a behavioral hit, each
/// sets a detection and raises the severity to `High`; otherwise the event is
/// returned as it came.
pub open spec fn analyzed(r: Event, e: Event) -> bool {
    &&& same_event_but_verdict(r, e)
    &&& if signature_hit(e.event_data) {
        &&& r.severity == Severity::High
        &&& r.detection matches Some(d) && is_signature_detection_for(d, e.event_data)
    } else if behavioral_hit(e.event_data) {
        &&& r.severity == Severity::High
        &&& r.detection matches Some(d) && is_behavioral_detection_for(d, e.event_data)
    } else {
        &&& r.severity == e.severity
        &&& r.detection == e.detection
    }
}

// ---------------------------------------------------------------------------
// Helpers
// ---------------------------------------------------------------------------

/// The views of a list of string slices.
pub open spec fn str_views(v: Seq<&str>) -> Seq<Seq<char>> {
    v.map_values(|s: &str| s@)
}

/// Whether one of `needles` occurs in `hay`.
fn contains_any(hay: &Vec<char>, needles: &[&str]) -> (r: bool)
    ensures
        r == exists|i: int|
            0 <= i < needles@.len() && is_substring(#[trigger] str_views(needles@)[i], hay@),
{
    let mut i: usize = 0;
    while i < needles.len()
        invariant
            i <= needles.len(),
            forall|k: int|
                0 <= k < i ==> !is_substring(#[trigger] str_views(needles@)[k], hay@),
        decreases needles.len() - i,
    {
        if contains_str(hay, needles[i]) {
            assert(str_views(needles@)[i as int] == needles@[i as int]@);
            return true;
        }
        i += 1;
    }
    false
}

/// Whether `hay` ends with one of `suffixes`.
fn ends_with_any(hay: &Vec<char>, suffixes: &[&str]) -> (r: bool)
    ensures
        r == exists|i: int|
            0 <= i < suffixes@.len() && has_suffix(hay@, #[trigger] str_views(suffixes@)[i]),
{
    let mut i: usize = 0;
    while i < suffixes.len()
        invariant
            i <= suffixes.len(),
            forall|k: int|
                0 <= k < i ==> !has_suffix(hay@, #[trigger] str_views(suffixes@)[k]),
        decreases suffixes.len() - i,
    {
        if ends_with_str(hay, suffixes[i]) {
            assert(str_views(suffixes@)[i as int] == suffixes@[i as int]@);
            return true;
        }
        i += 1;
    }
    false
}

/// A list of owned strings made from one literal.
fn one_string(s: &str) -> (r: Vec<String>)
    ensures
        string_views(r@) == seq![s@],
{
    let mut v: Vec<String> = Vec::new();
    v.push(owned(s));
    assert(string_views(v@) =~= seq![s@]);
    v
}

// ---------------------------------------------------------------------------
// Engine
// ---------------------------------------------------------------------------

/// Runs the detection rules over events.
pub struct DetectionEngine {
    config: Arc<Config>,
}

impl DetectionEngine {
    /// An engine for the given configuration.
    pub fn new(config: Arc<Config>) -> (r: DetectionEngine)
        ensures
            r.config() == config,
    {
        DetectionEngine { config }
    }

    /// The configuration the engine was made with.
    pub closed spec fn config(&self) -> Arc<Config> {
        self.config
    }

    /// Runs the checks in order and records the first detection: signature
    /// and behavioral detections raise the severity to `High`, a heuristic
    /// one to `Medium`. A new detection gets a fresh random id; where none can
    /// be had, the analysis fails.
    pub fn analyze(&self, event: Event) -> (r: Result<Event, DetectionError>)
        ensures
            match r {
                Ok(x) => {
                    &&& analyzed(x, event)
                    &&& (signature_hit(event.event_data) || behavioral_hit(event.event_data)) ==> (
                    x.detection matches Some(d) && has_v4_bits(d.detection_id))
                },
                Err(_) => signature_hit(event.event_data) || behavioral_hit(event.event_data),
            },
    {
        let mut event = event;
        let ghost received = event;
        match self.check_signatures(&event) {
            Ok(Some(d)) => {
                event.detection = Some(d);
                event.severity = Severity::High;
                return Ok(event);
            },
            Ok(None) => {},
            Err(e) => return Err(e),
        }
        match self.check_behavioral(&event) {
            Ok(Some(d)) => {
                event.detection = Some(d);
                event.severity = Severity::High;
                return Ok(event);
            },
            Ok(None) => {},
            Err(e) => return Err(e),
        }
        match self.check_heuristics(&event) {
            Some(d) => {
                event.detection = Some(d);
                event.severity = Severity::Medium;
                return Ok(event);
            },
            None => {},
        }
        assert(event == received);
        Ok(event)
    }

    /// The signature check: a file event whose SHA-256 is a known malware hash.
    fn check_signatures(&self, event: &Event) -> (r: Result<Option<Detection>, DetectionError>)
        ensures
            match r {
                Ok(o) => {
                    &&& o is Some <==> signature_hit(event.event_data)
                    &&& o matches Some(d) ==> is_signature_detection_for(d, event.event_data)
                        && has_v4_bits(d.detection_id)
                },
                Err(_) => signature_hit(event.event_data),
            },
    {
        match &event.event_data {
            EventData::File(file_event) => {
                match &file_event.hash_sha256 {
                    Some(hash) => {
                        if self.is_known_malware_hash(hash.as_str()) {
                            let detection_id = match new_uuid() {
                                Some(id) => id,
                                None => return Err(DetectionError::NoRandomId),
                            };
                            let mut indicators: Vec<String> = Vec::new();
                            indicators.push(hash.clone());
                            assert(string_views(indicators@) =~= seq![hash@]);
                            return Ok(
                                Some(
                                    Detection {
                                        detection_id,
                                        detection_type: DetectionType::Signature,
                                        malware_family: Some(owned("Generic.Malware")),
                                        confidence_percent: 100,
                                        description: owned("Known malware hash detected"),
                                        mitre_tactics: Vec::new(),
                                        mitre_techniques: Vec::new(),
                                        indicators,
                                    },
                                ),
                            );
                        }
                    },
                    None => {},
                }
            },
            _ => {},
        }
        Ok(None)
    }

    /// The behavioral check: suspicious process command lines, ransomware-like
    /// file names, and the detection test file.
    fn check_behavioral(&self, event: &Event) -> (r: Result<Option<Detection>, DetectionError>)
        ensures
            match r {
                Ok(o) => {
                    &&& o is Some <==> behavioral_hit(event.event_data)
                    &&& o matches Some(d) ==> is_behavioral_detection_for(d, event.event_data)
                        && has_v4_bits(d.detection_id)
                },
                Err(_) => behavioral_hit(event.event_data),
            },
    {
        match &event.event_data {
            EventData::Process(proc_event) => {
                if self.is_suspicious_process(proc_event) {
                    let detection_id = match new_uuid() {
                        Some(id) => id,
                        None => return Err(DetectionError::NoRandomId),
                    };
                    let mut indicators: Vec<String> = Vec::new();
                    indicators.push(proc_event.command_line.clone());
                    assert(string_views(indicators@) =~= seq![proc_event.command_line@]);
                    return Ok(
                        Some(
                            Detection {
                                detection_id,
                                detection_type: DetectionType::Behavioral,
                                malware_family: None,
                                confidence_percent: 75,
                                description: owned("Suspicious process behavior detected"),
                                mitre_tactics: one_string("Execution"),
                                mitre_techniques: one_string("T1059"),
                                indicators,
                            },
                        ),
                    );
                }
            },
            EventData::File(file_event) => {
                let ransomware = self.is_ransomware_behavior(file_event);
                let test_file = self.is_detection_test_file(file_event);
                if ransomware || test_file {
                    let detection_id = match new_uuid() {
                        Some(id) => id,
                        None => return Err(DetectionError::NoRandomId),
                    };
                    let mut indicators: Vec<String> = Vec::new();
                    indicators.push(file_event.path.clone());
                    assert(string_views(indicators@) =~= seq![file_event.path@]);
                    if ransomware {
                        return Ok(
                            Some(
                                Detection {
                                    detection_id,
                                    detection_type: DetectionType::Behavioral,
                                    malware_family: Some(owned("Ransomware")),
                                    confidence_percent: 85,
                                    description: owned("Potential ransomware activity detected"),
                                    mitre_tactics: one_string("Impact"),
                                    mitre_techniques: one_string("T1486"),
                                    indicators,
                                },
                            ),
                        );
                    }
                    return Ok(
                        Some(
                            Detection {
                                detection_id,
                                detection_type: DetectionType::Behavioral,
                                malware_family: None,
                                confidence_percent: 100,
                                description: owned("Detection test file written"),
                                mitre_tactics: Vec::new(),
                                mitre_techniques: Vec::new(),
                                indicators,
                            },
                        ),
                    );
                }
            },
            _ => {},
        }
        Ok(None)
    }

    /// The heuristic check. No heuristic rule is defined: it never detects.
    fn check_heuristics(&self, event: &Event) -> (r: Option<Detection>)
        ensures
            r is None,
    {
        None
    }

    /// Whether `hash` is in the malware hash database (which is empty).
    pub fn is_known_malware_hash(&self, hash: &str) -> (r: bool)
        ensures
            r == is_known_malware_hash(hash@),
    {
        false
    }

    /// Whether the lower-cased command line contains a suspicious pattern.
    pub fn is_suspicious_process(&self, proc_event: &ProcessEvent) -> (r: bool)
        ensures
            r == is_suspicious_command(proc_event.command_line@),
    {
        let lower = to_lowercase(proc_event.command_line.as_str());
        let cmd = chars_of(lower.as_str());
        let patterns: [&str; 13] = [
            "powershell.exe -enc",
            "powershell -encodedcommand",
            "cmd.exe /c echo",
            "wscript.exe",
            "cscript.exe",
            "regsvr32 /s /u /i:http",
            "rundll32.exe javascript:",
            "mshta.exe http",
            "certutil -decode",
            "bitsadmin /transfer",
            "invoke-expression",
            "downloadstring",
            "iex(new-object",
        ];
        assert(str_views(patterns@) =~= suspicious_command_patterns());
        contains_any(&cmd, patterns.as_slice())
    }

    /// Whether the lower-cased path ends with a ransomware extension.
    pub fn is_ransomware_behavior(&self, file_event: &FileEvent) -> (r: bool)
        ensures
            r == is_ransomware_path(file_event.path@),
    {
        let lower = to_lowercase(file_event.path.as_str());
        let path = chars_of(lower.as_str());
        let extensions: [&str; 8] = [
            ".encrypted",
            ".locked",
            ".crypto",
            ".crypt",
            ".locky",
            ".cerber",
            ".wannacry",
            ".ryuk",
        ];
        assert(str_views(extensions@) =~= ransomware_extensions());
        ends_with_any(&path, extensions.as_slice())
    }

    /// Whether the lower-cased path names the detection test file `test.txt`.
    pub fn is_detection_test_file(&self, file_event: &FileEvent) -> (r: bool)
        ensures
            r == is_detection_test_path(file_event.path@),
    {
        let lower = to_lowercase(file_event.path.as_str());
        let path = chars_of(lower.as_str());
        let name = chars_of("test.txt");
        let suffixes: [&str; 2] = ["/test.txt", "\\test.txt"];
        assert(str_views(suffixes@) =~= seq!["/test.txt"@, "\\test.txt"@]);
        let exact = chars_equal(&path, &name);
        let nested = ends_with_any(&path, suffixes.as_slice());
        proof {
            if nested {
                let i = choose|i: int|
                    0 <= i < suffixes@.len() && has_suffix(path@, #[trigger] str_views(suffixes@)[i]);
                assert(i == 0 || i == 1);
            }
            if has_suffix(path@, "/test.txt"@) {
                assert(has_suffix(path@, str_views(suffixes@)[0]));
            }
            if has_suffix(path@, "\\test.txt"@) {
                assert(has_suffix(path@, str_views(suffixes@)[1]));
            }
        }
        exact || nested
    }
}

/// The lower-cased command line contains one of the thirteen fragments that
/// mark a suspicious process.
pub open spec fn contains_listed_fragment(l: Seq<char>) -> bool {
    is_substring("powershell.exe -enc"@, l) || is_substring("powershell -encodedcommand"@, l) || is_substring("cmd.exe /c echo"@, l) || is_substring("wscript.exe"@, l) || is_substring("cscript.exe"@, l) || is_substring("regsvr32 /s /u /i:http"@, l) || is_substring("rundll32.exe javascript:"@, l) || is_substring("mshta.exe http"@, l) || is_substring("certutil -decode"@, l) || is_substring("bitsadmin /transfer"@, l) || is_substring("invoke-expression"@, l) || is_substring("downloadstring"@, l) || is_substring("iex(new-object"@, l)
}

/// The lower-cased path ends with one of the eight ransomware extensions.
pub open spec fn ends_with_listed_extension(l: Seq<char>) -> bool {
    has_suffix(l, ".encrypted"@) || has_suffix(l, ".locked"@) || has_suffix(l, ".crypto"@) || has_suffix(l, ".crypt"@) || has_suffix(l, ".locky"@) || has_suffix(l, ".cerber"@) || has_suffix(l, ".wannacry"@) || has_suffix(l, ".ryuk"@)
}

/// A command line is suspicious exactly when its lower-cased form contains
/// one of the fragments `powershell.exe -enc`, `powershell -encodedcommand`,
/// `cmd.exe /c echo`, `wscript.exe`, `cscript.exe`, `regsvr32 /s /u /i:http`,
/// `rundll32.exe javascript:`, `mshta.exe http`, `certutil -decode`,
/// `bitsadmin /transfer`, `invoke-expression`, `downloadstring` or
/// `iex(new-object`; each of them on its own is enough.
pub proof fn lemma_suspicious_command_fragments(c: Seq<char>)
    ensures
        is_suspicious_command(c) <==> contains_listed_fragment(lowercase(c)),
        is_substring("powershell.exe -enc"@, lowercase(c)) ==> is_suspicious_command(c),
        is_substring("powershell -encodedcommand"@, lowercase(c)) ==> is_suspicious_command(c),
        is_substring("cmd.exe /c echo"@, lowercase(c)) ==> is_suspicious_command(c),
        is_substring("wscript.exe"@, lowercase(c)) ==> is_suspicious_command(c),
        is_substring("cscript.exe"@, lowercase(c)) ==> is_suspicious_command(c),
        is_substring("regsvr32 /s /u /i:http"@, lowercase(c)) ==> is_suspicious_command(c),
        is_substring("rundll32.exe javascript:"@, lowercase(c)) ==> is_suspicious_command(c),
        is_substring("mshta.exe http"@, lowercase(c)) ==> is_suspicious_command(c),
        is_substring("certutil -decode"@, lowercase(c)) ==> is_suspicious_command(c),
        is_substring("bitsadmin /transfer"@, lowercase(c)) ==> is_suspicious_command(c),
        is_substring("invoke-expression"@, lowercase(c)) ==> is_suspicious_command(c),
        is_substring("downloadstring"@, lowercase(c)) ==> is_suspicious_command(c),
        is_substring("iex(new-object"@, lowercase(c)) ==> is_suspicious_command(c),
{
    assert(suspicious_command_patterns()[0] == "powershell.exe -enc"@);
    assert(suspicious_command_patterns()[1] == "powershell -encodedcommand"@);
    assert(suspicious_command_patterns()[2] == "cmd.exe /c echo"@);
    assert(suspicious_command_patterns()[3] == "wscript.exe"@);
    assert(suspicious_command_patterns()[4] == "cscript.exe"@);
    assert(suspicious_command_patterns()[5] == "regsvr32 /s /u /i:http"@);
    assert(suspicious_command_patterns()[6] == "rundll32.exe javascript:"@);
    assert(suspicious_command_patterns()[7] == "mshta.exe http"@);
    assert(suspicious_command_patterns()[8] == "certutil -decode"@);
    assert(suspicious_command_patterns()[9] == "bitsadmin /transfer"@);
    assert(suspicious_command_patterns()[10] == "invoke-expression"@);
    assert(suspicious_command_patterns()[11] == "downloadstring"@);
    assert(suspicious_command_patterns()[12] == "iex(new-object"@);
    if is_suspicious_command(c) {
        let i = choose|i: int|
            0 <= i < suspicious_command_patterns().len() && is_substring(
                #[trigger] suspicious_command_patterns()[i],
                lowercase(c),
            );
        assert(i == 0 || i == 1 || i == 2 || i == 3 || i == 4 || i == 5 || i == 6 || i == 7 || i == 8 || i == 9 || i == 10 || i == 11 || i == 12);
    }
}

/// A path looks encrypted by ransomware exactly when its lower-cased form
/// ends with `.encrypted`, `.locked`, `.crypto`, `.crypt`, `.locky`,
/// `.cerber`, `.wannacry` or `.ryuk`; each of them on its own is enough.
pub proof fn lemma_ransomware_extensions(path: Seq<char>)
    ensures
        is_ransomware_path(path) <==> ends_with_listed_extension(lowercase(path)),
        has_suffix(lowercase(path), ".encrypted"@) ==> is_ransomware_path(path),
        has_suffix(lowercase(path), ".locked"@) ==> is_ransomware_path(path),
        has_suffix(lowercase(path), ".crypto"@) ==> is_ransomware_path(path),
        has_suffix(lowercase(path), ".crypt"@) ==> is_ransomware_path(path),
        has_suffix(lowercase(path), ".locky"@) ==> is_ransomware_path(path),
        has_suffix(lowercase(path), ".cerber"@) ==> is_ransomware_path(path),
        has_suffix(lowercase(path), ".wannacry"@) ==> is_ransomware_path(path),
        has_suffix(lowercase(path), ".ryuk"@) ==> is_ransomware_path(path),
{
    assert(ransomware_extensions()[0] == ".encrypted"@);
    assert(ransomware_extensions()[1] == ".locked"@);
    assert(ransomware_extensions()[2] == ".crypto"@);
    assert(ransomware_extensions()[3] == ".crypt"@);
    assert(ransomware_extensions()[4] == ".locky"@);
    assert(ransomware_extensions()[5] == ".cerber"@);
    assert(ransomware_extensions()[6] == ".wannacry"@);
    assert(ransomware_extensions()[7] == ".ryuk"@);
    if is_ransomware_path(path) {
        let i = choose|i: int|
            0 <= i < ransomware_extensions().len() && has_suffix(
                lowercase(path),
                #[trigger] ransomware_extensions()[i],
            );
        assert(i == 0 || i == 1 || i == 2 || i == 3 || i == 4 || i == 5 || i == 6 || i == 7);
    }
}

/// Analysis of a process event whose command line is suspicious flags it:
/// the severity becomes `High` and a behavioral detection with confidence 75,
/// the description "Suspicious process behavior detected", tactic
/// `Execution`, technique `T1059` and the command line as its indicator is
/// recorded. Any other process event is left as it came.
pub proof fn lemma_process_analysis(e: Event, r: Event, p: ProcessEvent)
    requires
        analyzed(r, e),
        e.event_data == EventData::Process(p),
    ensures
        contains_listed_fragment(lowercase(p.command_line@)) ==> {
            &&& r.severity == Severity::High
            &&& r.detection matches Some(d) && {
                &&& d.detection_type == DetectionType::Behavioral
                &&& d.malware_family is None
                &&& d.confidence_percent == 75
                &&& d.description@ == "Suspicious process behavior detected"@
                &&& string_views(d.mitre_tactics@) == seq!["Execution"@]
                &&& string_views(d.mitre_techniques@) == seq!["T1059"@]
                &&& string_views(d.indicators@) == seq![p.command_line@]
            }
        },
        !contains_listed_fragment(lowercase(p.command_line@)) ==> r.severity == e.severity
            && r.detection == e.detection,
        r.event_data == e.event_data,
{
    lemma_suspicious_command_fragments(p.command_line@);
}

/// Analysis of a file event (without a known-malware hash, the database
/// being empty) whose path ends with a ransomware extension records a
/// behavioral detection of the family `Ransomware` with confidence 85, tactic
/// `Impact`, technique `T1486` and the path as its indicator, and raises the
/// severity to `High`.
pub proof fn lemma_ransomware_analysis(e: Event, r: Event, f: FileEvent)
    requires
        analyzed(r, e),
        e.event_data == EventData::File(f),
        ends_with_listed_extension(lowercase(f.path@)),
    ensures
        r.severity == Severity::High,
        r.detection matches Some(d) && {
            &&& d.detection_type == DetectionType::Behavioral
            &&& d.malware_family matches Some(m) && m@ == "Ransomware"@
            &&& d.confidence_percent == 85
            &&& d.description@ == "Potential ransomware activity detected"@
            &&& string_views(d.mitre_tactics@) == seq!["Impact"@]
            &&& string_views(d.mitre_techniques@) == seq!["T1486"@]
            &&& string_views(d.indicators@) == seq![f.path@]
        },
{
    lemma_ransomware_extensions(f.path@);
}

/// Writing the detection test file `test.txt` is flagged as behavioral and
/// raises the event to `High`, whatever hash the event carries.
pub proof fn lemma_detection_test_file_is_flagged(e: Event, r: Event, f: FileEvent)
    requires
        analyzed(r, e),
        e.event_data == EventData::File(f),
        is_detection_test_path(f.path@),
    ensures
        r.severity == Severity::High,
        r.detection matches Some(d) && d.detection_type == DetectionType::Behavioral,
{
}

/// A file counts as the detection test file exactly when its lower-cased
/// path is `test.txt` or ends with `/test.txt` or `\\test.txt`; analysis of
/// such a file event records a behavioral detection with confidence 100 and
/// the path as its indicator, and raises the severity to `High`.
pub proof fn lemma_detection_test_file_names(e: Event, r: Event, f: FileEvent)
    requires
        analyzed(r, e),
        e.event_data == EventData::File(f),
    ensures
        is_detection_test_path(f.path@) <==> (lowercase(f.path@) == "test.txt"@ || has_suffix(
            lowercase(f.path@),
            "/test.txt"@,
        ) || has_suffix(lowercase(f.path@), "\\test.txt"@)),
        (lowercase(f.path@) == "test.txt"@ || has_suffix(lowercase(f.path@), "/test.txt"@) || has_suffix(
            lowercase(f.path@),
            "\\test.txt"@,
        )) && !ends_with_listed_extension(lowercase(f.path@)) ==> {
            &&& r.severity == Severity::High
            &&& r.detection matches Some(d) && {
                &&& d.detection_type == DetectionType::Behavioral
                &&& d.malware_family is None
                &&& d.confidence_percent == 100
                &&& d.description@ == "Detection test file written"@
                &&& string_views(d.indicators@) == seq![f.path@]
            }
        },
{
    lemma_ransomware_extensions(f.path@);
}

/// Why an analysis could not be completed.
#[derive(Clone, Copy, Debug, PartialEq, Eq, Structural)]
pub enum DetectionError {
    /// A detection was due but no random id could be had for it.
    NoRandomId,
}

} // verus!
