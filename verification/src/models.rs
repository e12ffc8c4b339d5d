//! The data model shared by the agent: events, detections, configuration.
//!
//! Identifiers (agent, event, detection and action ids) are 128-bit UUID
//! values (`Uuid::as_u128`). Instants are nanoseconds since the Unix epoch,
//! UTC. A detection's confidence is a whole percentage.
use vstd::prelude::*;

use crate::text::owned;
use crate::stamp::{has_v4_bits, new_uuid};
use crate::trusted::platform_name;

verus! {

/// Identifier of an agent (a UUID as its 128-bit value).
pub type AgentId = u128;

/// Identifier of an event (a UUID as its 128-bit value).
pub type EventId = u128;

/// Severity levels for events and alerts.
#[derive(Clone, Copy, Debug, PartialEq, Eq, Structural)]
pub enum Severity {
    Info,
    Low,
    Medium,
    High,
    Critical,
}

/// Types of events the agent can detect.
#[derive(Clone, Copy, Debug, PartialEq, Eq, Structural)]
pub enum EventType {
    FileCreated,
    FileModified,
    FileDeleted,
    FileRenamed,
    ProcessCreated,
    ProcessTerminated,
    ProcessInjection,
    NetworkConnection,
    NetworkDnsQuery,
    RegistryKeyCreated,
    RegistryKeyModified,
    RegistryKeyDeleted,
    MalwareDetected,
    SuspiciousBehavior,
    RansomwareActivity,
    PrivilegeEscalation,
    PersistenceMechanism,
    LateralMovement,
    DataExfiltration,
    MemoryInjection,
    RootkitDetected,
}

/// File system event data.
#[derive(Clone, Debug)]
pub struct FileEvent {
    pub path: String,
    pub operation: FileOperation,
    pub process_id: u32,
    pub process_name: String,
    pub user: String,
    pub hash_sha256: Option<String>,
    pub hash_md5: Option<String>,
    pub size: Option<u64>,
    pub is_executable: bool,
}

/// What happened to a file.
#[derive(Clone, Debug, PartialEq, Eq)]
pub enum FileOperation {
    Create,
    Modify,
    Delete,
    Rename { old_path: String },
    Execute,
}

/// Process event data.
#[derive(Clone, Debug)]
pub struct ProcessEvent {
    pub process_id: u32,
    pub parent_process_id: u32,
    pub process_name: String,
    pub command_line: String,
    pub executable_path: String,
    pub user: String,
    pub hash_sha256: Option<String>,
    pub parent_name: String,
    pub operation: ProcessOperation,
}

/// What happened to a process.
#[derive(Clone, Copy, Debug, PartialEq, Eq, Structural)]
pub enum ProcessOperation {
    Create,
    Terminate,
    Injection { target_pid: u32 },
    MemoryModification,
    PrivilegeEscalation,
}

/// Network event data.
#[derive(Clone, Debug)]
pub struct NetworkEvent {
    pub process_id: u32,
    pub process_name: String,
    pub protocol: NetworkProtocol,
    pub local_address: String,
    pub local_port: u16,
    pub remote_address: String,
    pub remote_port: u16,
    pub direction: NetworkDirection,
    pub bytes_sent: u64,
    pub bytes_received: u64,
    pub dns_query: Option<String>,
}

/// Transport or application protocol of a connection.
#[derive(Clone, Debug, PartialEq, Eq)]
pub enum NetworkProtocol {
    TCP,
    UDP,
    ICMP,
    HTTP,
    HTTPS,
    DNS,
    Other(String),
}

/// Direction of a connection.
#[derive(Clone, Copy, Debug, PartialEq, Eq, Structural)]
pub enum NetworkDirection {
    Inbound,
    Outbound,
}

/// Registry event data (Windows).
#[derive(Clone, Debug)]
pub struct RegistryEvent {
    pub key_path: String,
    pub value_name: Option<String>,
    pub value_data: Option<String>,
    pub operation: RegistryOperation,
    pub process_id: u32,
    pub process_name: String,
}

/// What happened to a registry key or value.
#[derive(Clone, Copy, Debug, PartialEq, Eq, Structural)]
pub enum RegistryOperation {
    KeyCreated,
    KeyDeleted,
    ValueSet,
    ValueDeleted,
}

/// Detection result from threat analysis.
#[derive(Clone, Debug)]
pub struct Detection {
    pub detection_id: u128,
    pub detection_type: DetectionType,
    pub malware_family: Option<String>,
    /// Confidence as a whole percentage, 0 to 100.
    pub confidence_percent: u8,
    pub description: String,
    pub mitre_tactics: Vec<String>,
    pub mitre_techniques: Vec<String>,
    pub indicators: Vec<String>,
}

/// How a detection was made.
#[derive(Clone, Debug, PartialEq, Eq)]
pub enum DetectionType {
    Signature,
    Behavioral,
    Heuristic,
    MachineLearning,
    YaraRule { rule_name: String },
    ThreatIntelligence,
}

/// A complete event with all its metadata.
#[derive(Clone, Debug)]
pub struct Event {
    pub event_id: EventId,
    pub agent_id: AgentId,
    /// Nanoseconds since the Unix epoch, UTC.
    pub timestamp: i128,
    pub event_type: EventType,
    pub severity: Severity,
    pub hostname: String,
    pub os_type: OsType,
    pub event_data: EventData,
    pub detection: Option<Detection>,
}

/// The payload of an event.
#[derive(Clone, Debug)]
pub enum EventData {
    File(FileEvent),
    Process(ProcessEvent),
    Network(NetworkEvent),
    Registry(RegistryEvent),
    /// Free-form data, held as JSON text.
    Custom(String),
}

/// Operating system family.
#[derive(Clone, Copy, Debug, PartialEq, Eq, Structural)]
pub enum OsType {
    Windows,
    MacOS,
    Linux,
}

/// Agent configuration.
#[derive(Clone, Debug)]
pub struct AgentConfig {
    pub agent_id: AgentId,
    pub server_url: String,
    pub update_interval_secs: u64,
    pub monitoring: MonitoringConfig,
    pub detection: DetectionConfig,
    pub response: ResponseConfig,
    pub performance: PerformanceConfig,
}

/// Which sources the agent watches, and what it leaves out.
#[derive(Clone, Debug)]
pub struct MonitoringConfig {
    pub file_system: bool,
    pub processes: bool,
    pub network: bool,
    pub registry: bool,
    pub memory: bool,
    pub excluded_paths: Vec<String>,
    pub excluded_processes: Vec<String>,
}

/// Which detection methods are enabled.
#[derive(Clone, Debug)]
pub struct DetectionConfig {
    pub real_time_scan: bool,
    pub behavioral_analysis: bool,
    pub ml_detection: bool,
    pub yara_rules: bool,
    pub signature_db: bool,
}

/// Which automatic responses are allowed.
#[derive(Clone, Debug)]
pub struct ResponseConfig {
    pub auto_quarantine: bool,
    pub allow_process_termination: bool,
    pub allow_network_blocking: bool,
    pub require_admin_approval: bool,
}

/// Resource limits of the agent.
#[derive(Clone, Debug)]
pub struct PerformanceConfig {
    pub max_cpu_percent: u8,
    pub max_memory_mb: u32,
    pub event_buffer_size: usize,
    pub scan_queue_size: usize,
}

/// A response action to be taken.
#[derive(Clone, Debug)]
pub struct ResponseAction {
    pub action_id: u128,
    pub agent_id: AgentId,
    pub action_type: ActionType,
    pub reason: String,
    pub auto_approved: bool,
}

/// The kinds of response action.
#[derive(Clone, Debug)]
pub enum ActionType {
    QuarantineFile { path: String },
    TerminateProcess { pid: u32 },
    BlockNetwork { address: String, port: u16 },
    IsolateHost,
    CollectForensics { artifacts: Vec<String> },
    UpdateConfiguration(AgentConfig),
}

/// Kinds of threat intelligence indicator.
#[derive(Clone, Copy, Debug, PartialEq, Eq, Structural)]
pub enum IndicatorType {
    FileHash,
    IpAddress,
    Domain,
    Url,
    Email,
    Registry,
    Mutex,
}

/// Record of a file moved into quarantine.
#[derive(Clone, Debug)]
pub struct QuarantineInfo {
    pub original_path: String,
    pub quarantine_path: String,
    /// Nanoseconds since the Unix epoch, UTC.
    pub timestamp: i128,
    pub reason: String,
}

// ---------------------------------------------------------------------------
// Operating system of this host
// ---------------------------------------------------------------------------

/// The operating system family named by a platform name: `"Windows"` is
/// Windows, `"Mac OS"` is macOS, every other platform counts as Linux.
pub open spec fn os_type_for_platform(name: Seq<char>) -> OsType {
    if name == "Windows"@ {
        OsType::Windows
    } else if name == "Mac OS"@ {
        OsType::MacOS
    } else {
        OsType::Linux
    }
}

/// The operating system family of a platform name.
pub fn os_type_from_platform(name: &str) -> (r: OsType)
    ensures
        r == os_type_for_platform(name@),
{
    let cs = crate::text::chars_of(name);
    let w = crate::text::chars_of("Windows");
    let m = crate::text::chars_of("Mac OS");
    if crate::text::chars_equal(&cs, &w) {
        OsType::Windows
    } else if crate::text::chars_equal(&cs, &m) {
        OsType::MacOS
    } else {
        OsType::Linux
    }
}

/// The operating system family this agent runs on.
pub fn current_os_type() -> OsType {
    let name = platform_name();
    os_type_from_platform(name.as_str())
}

// ---------------------------------------------------------------------------
// Default agent configuration
// ---------------------------------------------------------------------------

/// `c` holds the default agent settings, with `registry` as the registry
/// monitoring switch (the agent id is not constrained).
pub open spec fn is_default_agent_config(c: AgentConfig, registry: bool) -> bool {
    &&& c.server_url@ == "https://localhost:8443"@
    &&& c.update_interval_secs == 300
    &&& c.monitoring.file_system
    &&& c.monitoring.processes
    &&& c.monitoring.network
    &&& c.monitoring.registry == registry
    &&& c.monitoring.memory
    &&& c.monitoring.excluded_paths@.len() == 0
    &&& c.monitoring.excluded_processes@.len() == 0
    &&& c.detection.real_time_scan
    &&& c.detection.behavioral_analysis
    &&& c.detection.ml_detection
    &&& c.detection.yara_rules
    &&& c.detection.signature_db
    &&& c.response.auto_quarantine
    &&& c.response.allow_process_termination
    &&& c.response.allow_network_blocking
    &&& !c.response.require_admin_approval
    &&& c.performance.max_cpu_percent == 10
    &&& c.performance.max_memory_mb == 256
    &&& c.performance.event_buffer_size == 10000
    &&& c.performance.scan_queue_size == 100
}

impl AgentConfig {
    /// The default configuration for an agent with id `agent_id` on an
    /// `os_type` host: registry monitoring is on for Windows only.
    pub fn default_for(agent_id: AgentId, os_type: OsType) -> (r: AgentConfig)
        ensures
            r.agent_id == agent_id,
            is_default_agent_config(r, os_type == OsType::Windows),
    {
        AgentConfig {
            agent_id,
            server_url: owned("https://localhost:8443"),
            update_interval_secs: 300,
            monitoring: MonitoringConfig {
                file_system: true,
                processes: true,
                network: true,
                registry: os_type == OsType::Windows,
                memory: true,
                excluded_paths: Vec::new(),
                excluded_processes: Vec::new(),
            },
            detection: DetectionConfig {
                real_time_scan: true,
                behavioral_analysis: true,
                ml_detection: true,
                yara_rules: true,
                signature_db: true,
            },
            response: ResponseConfig {
                auto_quarantine: true,
                allow_process_termination: true,
                allow_network_blocking: true,
                require_admin_approval: false,
            },
            performance: PerformanceConfig {
                max_cpu_percent: 10,
                max_memory_mb: 256,
                event_buffer_size: 10000,
                scan_queue_size: 100,
            },
        }
    }
}

impl AgentConfig {
    /// A fresh random agent id and the default settings for this host; `None`
    /// where no random id could be had.
    pub fn try_default() -> (r: Option<AgentConfig>)
        ensures
            r matches Some(c) ==> {
                &&& is_default_agent_config(c, c.monitoring.registry)
                &&& has_v4_bits(c.agent_id)
            },
    {
        match new_uuid() {
            Some(id) => Some(AgentConfig::default_for(id, current_os_type())),
            None => None,
        }
    }
}

} // verus!
