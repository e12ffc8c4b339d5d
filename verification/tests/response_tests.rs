use std::sync::Arc;

use icenet_agent::config::{Config, ConfigFormat, LoggingConfig, TlsConfig};
use icenet_agent::models::{
    os_type_from_platform, ActionType, AgentConfig, Detection, DetectionType, Event, EventData,
    EventType, FileEvent, FileOperation, MonitoringConfig, NetworkDirection, NetworkEvent,
    NetworkProtocol, OsType, RegistryEvent, RegistryOperation, Severity,
};
use icenet_agent::protocol::{
    api_url, enabled_monitors, is_success_status, should_send_events, ApiEndpoint,
    MessageEnvelope, MonitorKind, PROTOCOL_VERSION,
};
use icenet_agent::response::{block_command_for_os, ResponseHandler};
use icenet_agent::stamp::EventStamp;

fn detection() -> Detection {
    Detection {
        detection_id: 5,
        detection_type: DetectionType::Behavioral,
        malware_family: None,
        confidence_percent: 75,
        description: "x".to_string(),
        mitre_tactics: vec![],
        mitre_techniques: vec![],
        indicators: vec![],
    }
}

fn event(data: EventData, detected: bool) -> Event {
    Event {
        event_id: 1,
        agent_id: 2,
        timestamp: 0,
        event_type: EventType::SuspiciousBehavior,
        severity: Severity::High,
        hostname: "h".to_string(),
        os_type: OsType::Linux,
        event_data: data,
        detection: if detected { Some(detection()) } else { None },
    }
}

fn file_data(path: &str) -> EventData {
    EventData::File(FileEvent {
        path: path.to_string(),
        operation: FileOperation::Create,
        process_id: 1,
        process_name: "p".to_string(),
        user: "u".to_string(),
        hash_sha256: None,
        hash_md5: None,
        size: None,
        is_executable: false,
    })
}

fn net_data() -> EventData {
    EventData::Network(NetworkEvent {
        process_id: 0,
        process_name: "unknown".to_string(),
        protocol: NetworkProtocol::TCP,
        local_address: "10.0.0.1".to_string(),
        local_port: 1,
        remote_address: "6.6.6.6".to_string(),
        remote_port: 4444,
        direction: NetworkDirection::Inbound,
        bytes_sent: 0,
        bytes_received: 0,
        dns_query: None,
    })
}

fn handler(auto_quarantine: bool, terminate: bool, block: bool) -> ResponseHandler {
    let mut c = Config::try_default().expect("random id");
    c.agent.response.auto_quarantine = auto_quarantine;
    c.agent.response.allow_process_termination = terminate;
    c.agent.response.allow_network_blocking = block;
    ResponseHandler::for_os(Arc::new(c), OsType::Linux)
}

fn process_data(pid: u32) -> EventData {
    EventData::Process(icenet_agent::models::ProcessEvent {
        process_id: pid,
        parent_process_id: 0,
        process_name: "p".to_string(),
        command_line: String::new(),
        executable_path: String::new(),
        user: String::new(),
        hash_sha256: None,
        parent_name: "none".to_string(),
        operation: icenet_agent::models::ProcessOperation::Create,
    })
}

#[test]
fn threats_map_to_allowed_actions() {
    let h = handler(true, true, true);
    match h.handle_threat(&event(file_data("/tmp/x.locked"), true)) {
        Some(ActionType::QuarantineFile { path }) => assert_eq!(path, "/tmp/x.locked"),
        _ => panic!("quarantine expected"),
    }
    match h.handle_threat(&event(process_data(31), true)) {
        Some(ActionType::TerminateProcess { pid }) => assert_eq!(pid, 31),
        _ => panic!("termination expected"),
    }
    assert!(h.handle_threat(&event(process_data(0), true)).is_none());
    assert!(h.handle_threat(&event(process_data(u32::MAX), true)).is_none());
    assert!(h.handle_threat(&event(process_data(0x8000_0000), true)).is_none());
    match h.handle_threat(&event(process_data(0x7fff_ffff), true)) {
        Some(ActionType::TerminateProcess { pid }) => assert_eq!(pid, 0x7fff_ffff),
        _ => panic!("termination expected"),
    }
    match h.handle_threat(&event(net_data(), true)) {
        Some(ActionType::BlockNetwork { address, port }) => {
            assert_eq!(address, "6.6.6.6");
            assert_eq!(port, 4444);
        }
        _ => panic!("block expected"),
    }
    let registry = EventData::Registry(RegistryEvent {
        key_path: "HKLM\\Run".to_string(),
        value_name: None,
        value_data: None,
        operation: RegistryOperation::ValueSet,
        process_id: 1,
        process_name: "p".to_string(),
    });
    assert!(h.handle_threat(&event(registry, true)).is_none());
    assert!(h.handle_threat(&event(file_data("/tmp/x"), false)).is_none());
}

#[test]
fn disallowed_actions_are_not_taken() {
    let h = handler(false, false, false);
    assert!(h.handle_threat(&event(file_data("/tmp/x.locked"), true)).is_none());
    assert!(h.handle_threat(&event(process_data(31), true)).is_none());
    assert!(h.handle_threat(&event(net_data(), true)).is_none());
}

#[test]
fn quarantine_record_names_file_by_time() {
    let h = handler(true, true, true);
    assert_eq!(h.quarantine_dir(), "/var/lib/icenet/quarantine");
    let q = h.quarantine_record("/home/u/evil.exe", Some("evil.exe"), "Known malware", 0).expect("renders");
    assert_eq!(q.original_path, "/home/u/evil.exe");
    assert_eq!(q.quarantine_path, "/var/lib/icenet/quarantine/19700101_000000_evil.exe");
    assert_eq!(q.timestamp, 0);
    assert_eq!(q.reason, "Known malware");
    let q = h.quarantine_record("/", None, "r", 1_700_000_000_123_456_789).expect("renders");
    assert_eq!(q.quarantine_path, "/var/lib/icenet/quarantine/20231114_221320_unknown");
    assert_eq!(q.timestamp, 1_700_000_000_123_456_789);
    // One nanosecond before the epoch is still 1969.
    let q = h.quarantine_record("/a", Some("a"), "r", -1).expect("renders");
    assert_eq!(q.quarantine_path, "/var/lib/icenet/quarantine/19691231_235959_a");
    // Seconds beyond chrono's dates, and seconds beyond an i64.
    assert!(h.quarantine_record("/a", Some("a"), "r", i64::MAX as i128).is_some());
    assert!(h.quarantine_record("/a", Some("a"), "r", i64::MAX as i128 * 1_000).is_none());
    assert!(h.quarantine_record("/a", Some("a"), "r", i128::MAX).is_none());
    assert!(h.quarantine_record("/a", Some("a"), "r", i128::MIN).is_none());
    let w = ResponseHandler::for_os(Arc::new(Config::try_default().expect("random id")), OsType::Windows);
    assert_eq!(w.quarantine_dir(), "C:\\ProgramData\\IceNet\\Quarantine");
    let q = w.quarantine_record("C:\\a\\b.exe", Some("b.exe"), "r", 0).expect("renders");
    assert_eq!(q.quarantine_path, "C:\\ProgramData\\IceNet\\Quarantine\\19700101_000000_b.exe");
    let q = h.quarantine_record_now("/a/b", Some("b"), "r").expect("clock and random source work");
    assert!(q.timestamp > 1_600_000_000_000_000_000);
    assert!(q.quarantine_path.starts_with("/var/lib/icenet/quarantine/20"));
    assert!(q.quarantine_path.ends_with("_b"));
}

#[test]
fn firewall_commands_per_os() {
    let linux = block_command_for_os(OsType::Linux, "6.6.6.6", 4444).expect("iptables");
    assert_eq!(linux.program, "iptables");
    assert_eq!(linux.args, vec!["-A", "OUTPUT", "-d", "6.6.6.6", "-p", "tcp", "--dport", "4444", "-j", "DROP"]);
    let win = block_command_for_os(OsType::Windows, "6.6.6.6", 0).expect("netsh");
    assert_eq!(win.program, "netsh");
    assert_eq!(
        win.args,
        vec![
            "advfirewall", "firewall", "add", "rule", "name=IceNet_Block_6.6.6.6_0", "dir=out",
            "action=block", "remoteip=6.6.6.6", "remoteport=0"
        ]
    );
    assert!(block_command_for_os(OsType::MacOS, "6.6.6.6", 1).is_none());
    let h = handler(true, true, true);
    let here = h.block_command("1.2.3.4", 65535).expect("linux host");
    assert_eq!(here.args[7], "65535");
}

#[test]
fn default_configuration_values() {
    let l = LoggingConfig::default();
    assert_eq!(l.level, "info");
    assert_eq!(l.file.as_deref(), Some("/var/log/icenet-agent.log"));
    assert_eq!((l.max_size_mb, l.max_backups), (100, 5));
    let t = TlsConfig::default();
    assert!(t.enabled && t.verify_server);
    assert!(t.ca_cert.is_none() && t.client_cert.is_none() && t.client_key.is_none());
    let a = AgentConfig::default_for(42, OsType::Windows);
    assert_eq!(a.agent_id, 42);
    assert_eq!(a.server_url, "https://localhost:8443");
    assert_eq!(a.update_interval_secs, 300);
    assert!(a.monitoring.registry);
    assert!(!AgentConfig::default_for(42, OsType::Linux).monitoring.registry);
    assert!(!AgentConfig::default_for(42, OsType::MacOS).monitoring.registry);
    assert_eq!(a.performance.max_cpu_percent, 10);
    assert_eq!(a.performance.max_memory_mb, 256);
    assert_eq!(a.performance.event_buffer_size, 10000);
    assert_eq!(a.performance.scan_queue_size, 100);
    assert!(!a.response.require_admin_approval);
    let c1 = Config::try_default().expect("random id");
    let c2 = Config::try_default().expect("random id");
    assert_ne!(c1.agent.agent_id, c2.agent.agent_id);
    assert!(!c1.agent.monitoring.registry);
    assert_eq!(c1.agent.agent_id & 0xF000_C000_0000_0000_0000, 0x4000_8000_0000_0000_0000);
    let a = AgentConfig::try_default().expect("random id");
    assert_eq!(uuid::Uuid::from_u128(a.agent_id).get_version_num(), 4);
    let cw = Config::default_for(9, OsType::Windows);
    assert_eq!(cw.agent.agent_id, 9);
    assert!(cw.agent.monitoring.registry);
    assert_eq!(cw.logging.file.as_deref(), Some("C:\\ProgramData\\IceNet\\logs\\agent.log"));
}

#[test]
fn platform_names_map_to_os_families() {
    assert_eq!(os_type_from_platform("Windows"), OsType::Windows);
    assert_eq!(os_type_from_platform("Mac OS"), OsType::MacOS);
    assert_eq!(os_type_from_platform("Linux"), OsType::Linux);
    assert_eq!(os_type_from_platform("BSD"), OsType::Linux);
    assert_eq!(icenet_agent::models::current_os_type(), OsType::Linux);
}

#[test]
fn config_format_follows_extension() {
    assert_eq!(ConfigFormat::for_extension(Some("json")), ConfigFormat::Json);
    assert_eq!(ConfigFormat::for_extension(Some("yaml")), ConfigFormat::Yaml);
    assert_eq!(ConfigFormat::for_extension(Some("JSON")), ConfigFormat::Yaml);
    assert_eq!(ConfigFormat::for_extension(Some("jsonl")), ConfigFormat::Yaml);
    assert_eq!(ConfigFormat::for_extension(None), ConfigFormat::Yaml);
}

#[test]
fn protocol_helpers() {
    assert_eq!(api_url("https://srv:8443", ApiEndpoint::Register), "https://srv:8443/api/v1/agent/register");
    assert_eq!(api_url("https://srv:8443", ApiEndpoint::Heartbeat), "https://srv:8443/api/v1/agent/heartbeat");
    assert_eq!(api_url("", ApiEndpoint::Events), "/api/v1/agent/events");
    assert!(is_success_status(200) && is_success_status(204) && is_success_status(299));
    assert!(!is_success_status(199) && !is_success_status(300) && !is_success_status(500));
    assert!(should_send_events(1));
    assert!(!should_send_events(0));
    let e1 = MessageEnvelope::new(7u8).expect("clock and random source work");
    let e2 = MessageEnvelope::new(7u8).expect("clock and random source work");
    assert_eq!(e1.version, PROTOCOL_VERSION);
    assert_eq!(e1.version, 1);
    assert_eq!(e1.payload, 7);
    assert_ne!(e1.message_id, e2.message_id);
    assert!(e1.timestamp > 1_600_000_000_000_000_000);
    assert_eq!(e1.message_id & 0xF000_C000_0000_0000_0000, 0x4000_8000_0000_0000_0000);
}

#[test]
fn monitors_start_in_order() {
    let mut m = MonitoringConfig {
        file_system: true,
        processes: true,
        network: true,
        registry: false,
        memory: true,
        excluded_paths: vec![],
        excluded_processes: vec![],
    };
    assert_eq!(enabled_monitors(&m), vec![MonitorKind::FileSystem, MonitorKind::Processes, MonitorKind::Network]);
    m.processes = false;
    assert_eq!(enabled_monitors(&m), vec![MonitorKind::FileSystem, MonitorKind::Network]);
    m.file_system = false;
    m.network = false;
    assert!(enabled_monitors(&m).is_empty());
}

#[test]
fn event_stamp_capture_is_fresh() {
    let a = EventStamp::capture("h".to_string(), OsType::Linux).expect("clock and random source work");
    let b = EventStamp::capture("h".to_string(), OsType::Windows).expect("clock and random source work");
    assert_eq!(b.os_type, OsType::Windows);
    assert_eq!(a.hostname, "h");
    assert_ne!(a.event_id, b.event_id);
    assert!(b.timestamp >= a.timestamp);
    assert_eq!(a.os_type, OsType::Linux);
    assert_eq!(uuid::Uuid::from_u128(a.event_id).get_version_num(), 4);
    assert_eq!(uuid::Uuid::from_u128(a.event_id).get_variant(), uuid::Variant::RFC4122);
}

#[test]
fn ransomware_file_is_quarantined_and_suspicious_process_terminated() {
    let config = Arc::new(Config::try_default().expect("random id"));
    let engine = icenet_agent::detection::DetectionEngine::new(config.clone());
    let h = ResponseHandler::for_os(config, OsType::Linux);

    let analyzed = engine.analyze(event(file_data("/home/u/thesis.cerber"), false)).expect("random id");
    match h.handle_threat(&analyzed) {
        Some(ActionType::QuarantineFile { path }) => assert_eq!(path, "/home/u/thesis.cerber"),
        _ => panic!("quarantine expected"),
    }

    let mut p = match process_data(77) {
        EventData::Process(p) => p,
        _ => unreachable!(),
    };
    p.command_line = "mshta.exe http://x/y.hta".to_string();
    let analyzed = engine.analyze(event(EventData::Process(p), false)).expect("random id");
    match h.handle_threat(&analyzed) {
        Some(ActionType::TerminateProcess { pid }) => assert_eq!(pid, 77),
        _ => panic!("termination expected"),
    }

    let clean = engine.analyze(event(file_data("/home/u/notes.txt"), false)).expect("no detection due");
    assert!(clean.detection.is_none());
    assert!(h.handle_threat(&clean).is_none());
}
