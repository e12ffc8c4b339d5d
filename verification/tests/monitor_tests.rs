use std::sync::Arc;

use icenet_agent::config::Config;
use icenet_agent::file::{
    is_executable_extension, mode_is_executable, watch_paths, FileFacts, FileMonitor, WatchKind,
};
use icenet_agent::models::{
    EventData, EventType, FileOperation, NetworkDirection, NetworkEvent, NetworkProtocol, OsType,
    ProcessOperation, Severity,
};
use icenet_agent::network::NetworkMonitor;
use icenet_agent::process::{join_words, ProcessFacts, ProcessMonitor};
use icenet_agent::stamp::EventStamp;

fn config_with(excluded_paths: Vec<&str>, excluded_processes: Vec<&str>) -> Arc<Config> {
    let mut c = Config::default_for(77, OsType::Linux);
    c.agent.monitoring.excluded_paths = excluded_paths.into_iter().map(String::from).collect();
    c.agent.monitoring.excluded_processes =
        excluded_processes.into_iter().map(String::from).collect();
    Arc::new(c)
}

fn stamp() -> EventStamp {
    EventStamp { event_id: 9, timestamp: 1_700_000_000_000_000_000, hostname: "h1".to_string(), os_type: OsType::Linux }
}

const TCP_LINE: &str = "   0: 0100007F:0277 00000000:0000 0A 00000000:00000000 00:00000000 00000000     0        0 12345 1 0000000000000000 100 0 0 10 0";

#[test]
fn parses_hex_ip_little_endian() {
    let m = NetworkMonitor::new(config_with(vec![], vec![]));
    assert_eq!(m.parse_hex_ip("0100007F").as_deref(), Some("127.0.0.1"));
    assert_eq!(m.parse_hex_ip("FFFFFFFF").as_deref(), Some("255.255.255.255"));
    assert_eq!(m.parse_hex_ip("0A01A8C0").as_deref(), Some("192.168.1.10"));
    assert_eq!(m.parse_hex_ip("+100007F").as_deref(), Some("127.0.0.1"));
    assert_eq!(m.parse_hex_ip("0100007"), None);
    assert_eq!(m.parse_hex_ip("0100007G"), None);
    assert_eq!(m.parse_hex_ip("-100007F"), None);
}

#[test]
fn parses_proc_net_tcp_line() {
    let m = NetworkMonitor::new(config_with(vec![], vec![]));
    let ev = m.parse_linux_connection(TCP_LINE, NetworkProtocol::TCP).expect("parses");
    assert_eq!(ev.local_address, "127.0.0.1");
    assert_eq!(ev.local_port, 0x277);
    assert_eq!(ev.remote_address, "0.0.0.0");
    assert_eq!(ev.remote_port, 0);
    assert_eq!(ev.direction, NetworkDirection::Outbound);
    assert_eq!(ev.protocol, NetworkProtocol::TCP);
    assert_eq!(ev.process_id, 0);
    assert_eq!(ev.process_name, "unknown");
    assert_eq!(ev.bytes_sent, 0);
    assert!(ev.dns_query.is_none());

    let line = "  1: 0F02000A:C350 22D8B85D:01BB 01 00000000:00000000 02:00000A2E 00000000  1000        0 99 2 0 20 4 30 10 -1";
    let ev = m.parse_linux_connection(line, NetworkProtocol::UDP).expect("parses");
    assert_eq!(ev.local_address, "10.0.2.15");
    assert_eq!(ev.local_port, 50000);
    assert_eq!(ev.remote_address, "93.184.216.34");
    assert_eq!(ev.remote_port, 443);
    assert_eq!(ev.direction, NetworkDirection::Inbound);
}

#[test]
fn rejects_malformed_connection_lines() {
    let m = NetworkMonitor::new(config_with(vec![], vec![]));
    assert!(m.parse_linux_connection("  sl  local_address rem_address   st tx_queue rx_queue tr tm->when retrnsmt   uid  timeout inode", NetworkProtocol::TCP).is_none());
    assert!(m.parse_linux_connection("0: 0100007F:0277 00000000:0000 0A", NetworkProtocol::TCP).is_none());
    let bad_port = TCP_LINE.replace("0100007F:0277", "0100007F:10000");
    assert!(m.parse_linux_connection(&bad_port, NetworkProtocol::TCP).is_none());
    let two_colons = TCP_LINE.replace("0100007F:0277", "0100007F:02:77");
    assert!(m.parse_linux_connection(&two_colons, NetworkProtocol::TCP).is_none());
    assert!(m.parse_linux_connection("", NetworkProtocol::TCP).is_none());
}

#[test]
fn local_addresses_are_recognized() {
    let m = NetworkMonitor::new(config_with(vec![], vec![]));
    for a in ["127.0.0.1", "0.0.0.0", "::1", "192.168.4.4", "10.1.2.3", "172.16.0.9"] {
        assert!(m.is_local(a), "{}", a);
    }
    for a in ["8.8.8.8", "172.17.0.1", "::2", "1.10.0.1"] {
        assert!(!m.is_local(a), "{}", a);
    }
}

fn net(protocol: NetworkProtocol, remote: &str, port: u16) -> NetworkEvent {
    NetworkEvent {
        process_id: 0,
        process_name: "unknown".to_string(),
        protocol,
        local_address: "10.0.0.2".to_string(),
        local_port: 40000,
        remote_address: remote.to_string(),
        remote_port: port,
        direction: NetworkDirection::Inbound,
        bytes_sent: 0,
        bytes_received: 0,
        dns_query: None,
    }
}

#[test]
fn network_severity_rules() {
    let m = NetworkMonitor::new(config_with(vec![], vec![]));
    assert_eq!(m.calculate_severity(&net(NetworkProtocol::HTTPS, "1.1.1.1", 4444)), Severity::High);
    assert_eq!(m.calculate_severity(&net(NetworkProtocol::TCP, "1.1.1.1", 31337)), Severity::High);
    assert_eq!(m.calculate_severity(&net(NetworkProtocol::HTTP, "1.1.1.1", 80)), Severity::Low);
    assert_eq!(m.calculate_severity(&net(NetworkProtocol::HTTPS, "1.1.1.1", 443)), Severity::Low);
    assert_eq!(m.calculate_severity(&net(NetworkProtocol::DNS, "1.1.1.1", 53)), Severity::Info);
    assert_eq!(m.calculate_severity(&net(NetworkProtocol::TCP, "1.1.1.1", 22)), Severity::Medium);
    assert_eq!(m.calculate_severity(&net(NetworkProtocol::Other("QUIC".to_string()), "1.1.1.1", 22)), Severity::Medium);
}

#[test]
fn network_event_skips_local_and_stamps_the_rest() {
    let m = NetworkMonitor::new(config_with(vec![], vec![]));
    assert!(m.network_event(stamp(), net(NetworkProtocol::TCP, "192.168.0.1", 4444)).is_none());
    let e = m.network_event(stamp(), net(NetworkProtocol::TCP, "8.8.4.4", 4444)).expect("reported");
    assert_eq!(e.event_type, EventType::NetworkConnection);
    assert_eq!(e.severity, Severity::High);
    assert_eq!(e.event_id, 9);
    assert_eq!(e.agent_id, 77);
    assert_eq!(e.hostname, "h1");
    assert!(e.detection.is_none());
    match e.event_data {
        EventData::Network(n) => assert_eq!(n.remote_address, "8.8.4.4"),
        _ => panic!("network data expected"),
    }
}

#[test]
fn watch_paths_per_os() {
    assert_eq!(watch_paths(OsType::Linux), vec!["/home", "/etc", "/var", "/usr/bin", "/usr/local/bin", "/tmp"]);
    assert_eq!(watch_paths(OsType::MacOS), vec!["/Users", "/Applications", "/Library", "/System", "/tmp"]);
    assert_eq!(
        watch_paths(OsType::Windows),
        vec!["C:\\Users", "C:\\Windows\\System32", "C:\\Program Files", "C:\\Program Files (x86)", "C:\\ProgramData", "C:\\temp"]
    );
    let m = FileMonitor::new(config_with(vec![], vec![]));
    assert_eq!(m.get_watch_paths(), watch_paths(OsType::Linux));
    let w = FileMonitor::for_os(config_with(vec![], vec![]), OsType::Windows);
    assert_eq!(w.get_watch_paths(), watch_paths(OsType::Windows));
    assert!(watch_paths(OsType::Linux).iter().any(|p| "/tmp/test.txt".starts_with(p.as_str())));
    assert!(watch_paths(OsType::MacOS).iter().any(|p| "/tmp/test.txt".starts_with(p.as_str())));
    assert!(watch_paths(OsType::Windows).iter().any(|p| "C:\\temp\\test.txt".starts_with(p.as_str())));
}

#[test]
fn file_changes_are_classified() {
    let m = FileMonitor::new(config_with(vec!["/var/log", "/tmp/cache"], vec![]));
    assert_eq!(m.classify("/etc/passwd", WatchKind::Create), Some(FileOperation::Create));
    assert_eq!(m.classify("/etc/passwd", WatchKind::Modify), Some(FileOperation::Modify));
    assert_eq!(m.classify("/etc/passwd", WatchKind::Remove), Some(FileOperation::Delete));
    assert_eq!(m.classify("/etc/passwd", WatchKind::Access), None);
    assert_eq!(m.classify("/etc/passwd", WatchKind::Any), None);
    assert_eq!(m.classify("/etc/passwd", WatchKind::Other), None);
    assert_eq!(m.classify("/var/log/syslog", WatchKind::Create), None);
    assert!(m.is_excluded("/tmp/cache"));
    assert!(!m.is_excluded("/tmp/cach"));
    assert!(m.needs_hash(&FileOperation::Create));
    assert!(!m.needs_hash(&FileOperation::Delete));
}

#[test]
fn file_severity_rules() {
    let m = FileMonitor::new(config_with(vec![], vec![]));
    assert_eq!(m.calculate_severity("/usr/bin/ls", true), Severity::High);
    assert_eq!(m.calculate_severity("C:\\Windows\\System32\\x.dll", true), Severity::High);
    assert_eq!(m.calculate_severity("/usr/sbin/sshd", true), Severity::High);
    assert_eq!(m.calculate_severity("/home/u/run.sh", true), Severity::Medium);
    assert_eq!(m.calculate_severity("/usr/bin/ls", false), Severity::Low);
}

#[test]
fn executable_checks() {
    assert!(is_executable_extension("EXE"));
    assert!(is_executable_extension("ps1"));
    assert!(!is_executable_extension("txt"));
    assert!(!is_executable_extension(""));
    assert!(mode_is_executable(0o755));
    assert!(mode_is_executable(0o001));
    assert!(!mode_is_executable(0o644));
}

#[test]
fn sha256_of_contents_is_lower_hex() {
    let m = FileMonitor::new(config_with(vec![], vec![]));
    assert_eq!(m.calculate_hash(b"abc"), "ba7816bf8f01cfea414140de5dae2223b00361a396177a9cb410ff61f20015ad");
    assert_eq!(m.calculate_hash(b""), "e3b0c44298fc1c149afbf4c8996fb92427ae41e4649b934ca495991b7852b855");
}

fn facts(contents: Option<&[u8]>, is_executable: bool) -> FileFacts {
    FileFacts {
        size: Some(3),
        is_executable,
        contents: contents.map(|c| c.to_vec()),
        process_id: 11,
        process_name: "icenet-agent".to_string(),
        user: "root".to_string(),
    }
}

#[test]
fn file_event_records_hash_only_for_creations_and_modifications() {
    let m = FileMonitor::new(config_with(vec![], vec![]));
    let e = m.file_event(stamp(), "/usr/bin/tool".to_string(), FileOperation::Create, facts(Some(b"abc"), true));
    assert_eq!(e.event_type, EventType::FileCreated);
    assert_eq!(e.severity, Severity::High);
    assert_eq!(e.agent_id, 77);
    match &e.event_data {
        EventData::File(f) => {
            assert_eq!(f.path, "/usr/bin/tool");
            assert_eq!(f.hash_sha256.as_deref(), Some("ba7816bf8f01cfea414140de5dae2223b00361a396177a9cb410ff61f20015ad"));
            assert_eq!(f.size, Some(3));
            assert_eq!(f.process_id, 11);
            assert!(f.hash_md5.is_none());
        }
        _ => panic!("file data expected"),
    }
    let e = m.file_event(stamp(), "/home/a".to_string(), FileOperation::Delete, facts(Some(b"abc"), false));
    assert_eq!(e.event_type, EventType::FileDeleted);
    assert_eq!(e.severity, Severity::Low);
    match &e.event_data {
        EventData::File(f) => assert!(f.hash_sha256.is_none()),
        _ => panic!("file data expected"),
    }
    let e = m.file_event(stamp(), "/tmp/test.txt".to_string(), FileOperation::Modify, facts(Some(b"x"), false));
    assert_eq!(e.event_type, EventType::FileModified);
    let e = m.file_event(
        stamp(),
        "/tmp/b".to_string(),
        FileOperation::Rename { old_path: "/tmp/a".to_string() },
        facts(None, false),
    );
    assert_eq!(e.event_type, EventType::FileRenamed);
    let e = m.file_event(stamp(), "/tmp/x".to_string(), FileOperation::Execute, facts(None, false));
    assert_eq!(e.event_type, EventType::FileCreated);
}

#[test]
fn process_snapshots_report_started_and_ended() {
    let mut m = ProcessMonitor::new(config_with(vec![], vec![]));
    m.initialize(&vec![1, 2, 3]);
    let (created, terminated) = m.refresh(&vec![2, 3, 4, 4, 5]);
    let mut c = created.clone();
    c.sort();
    assert_eq!(c, vec![4, 5]);
    assert_eq!(terminated, vec![1]);
    let (created, terminated) = m.refresh(&vec![5, 4, 3, 2]);
    assert!(created.is_empty());
    assert!(terminated.is_empty());
    let (created, terminated) = m.refresh(&vec![]);
    assert!(created.is_empty());
    let mut t = terminated.clone();
    t.sort();
    assert_eq!(t, vec![2, 3, 4, 5]);
}

#[test]
fn process_severity_rules() {
    let m = ProcessMonitor::new(config_with(vec![], vec![]));
    assert_eq!(m.calculate_severity("PowerShell.exe", "powershell -W Hidden", "C:\\x"), Severity::High);
    assert_eq!(m.calculate_severity("powershell.exe", "powershell Get-Date", "C:\\x"), Severity::Medium);
    assert_eq!(m.calculate_severity("evil.exe", "evil", "C:\\Users\\a\\AppData\\Local\\Temp\\evil.exe"), Severity::Medium);
    assert_eq!(m.calculate_severity("a.out", "./a.out", "/tmp/a.out"), Severity::Medium);
    assert_eq!(m.calculate_severity("bash", "bash -l", "/usr/bin/bash"), Severity::Low);
}

#[test]
fn joins_command_line_with_spaces() {
    assert_eq!(join_words(&vec!["a".to_string(), "b c".to_string(), "".to_string()]), "a b c ");
    assert_eq!(join_words(&vec![]), "");
    assert_eq!(join_words(&vec!["one".to_string()]), "one");
}

fn pfacts(name: &str, parent: Option<u32>, exe: Option<&str>) -> ProcessFacts {
    ProcessFacts {
        name: name.to_string(),
        parent_pid: parent,
        exe_path: exe.map(String::from),
        cmd: vec![name.to_string(), "-enc".to_string(), "AAAA".to_string()],
        user: "Uid(1000)".to_string(),
        exe_contents: Some(b"abc".to_vec()),
    }
}

#[test]
fn process_created_event_fields() {
    let m = ProcessMonitor::new(config_with(vec![], vec!["svchost"]));
    assert!(m.process_created_event(stamp(), 10, pfacts("svchost.exe", Some(1), None)).is_none());
    let e = m.process_created_event(stamp(), 10, pfacts("powershell", Some(1), Some("/usr/bin/pwsh"))).expect("reported");
    assert_eq!(e.event_type, EventType::ProcessCreated);
    assert_eq!(e.severity, Severity::High);
    match &e.event_data {
        EventData::Process(p) => {
            assert_eq!(p.process_id, 10);
            assert_eq!(p.parent_process_id, 1);
            assert_eq!(p.parent_name, "unknown");
            assert_eq!(p.command_line, "powershell -enc AAAA");
            assert_eq!(p.executable_path, "/usr/bin/pwsh");
            assert_eq!(p.user, "Uid(1000)");
            assert_eq!(p.hash_sha256.as_deref(), Some("ba7816bf8f01cfea414140de5dae2223b00361a396177a9cb410ff61f20015ad"));
            assert_eq!(p.operation, ProcessOperation::Create);
        }
        _ => panic!("process data expected"),
    }
    let e = m.process_created_event(stamp(), 11, pfacts("init", None, None)).expect("reported");
    match &e.event_data {
        EventData::Process(p) => {
            assert_eq!(p.parent_process_id, 0);
            assert_eq!(p.parent_name, "none");
            assert_eq!(p.executable_path, "");
            assert!(p.hash_sha256.is_none());
        }
        _ => panic!("process data expected"),
    }
}

#[test]
fn process_terminated_event_fields() {
    let m = ProcessMonitor::new(config_with(vec![], vec![]));
    let e = m.process_terminated_event(stamp(), 99);
    assert_eq!(e.event_type, EventType::ProcessTerminated);
    assert_eq!(e.severity, Severity::Low);
    match &e.event_data {
        EventData::Process(p) => {
            assert_eq!(p.process_id, 99);
            assert_eq!(p.process_name, "unknown");
            assert_eq!(p.command_line, "");
            assert_eq!(p.operation, ProcessOperation::Terminate);
        }
        _ => panic!("process data expected"),
    }
}

#[test]
fn parses_whole_connection_table_after_header() {
    let m = NetworkMonitor::new(config_with(vec![], vec![]));
    let header = "  sl  local_address rem_address   st tx_queue rx_queue tr tm->when retrnsmt   uid  timeout inode";
    let broken = "  2: zz";
    let second = "   3: 0F02000A:C350 22D8B85D:01BB 01 00000000:00000000 02:00000A2E 00000000  1000        0 99 2 0 20 4 30 10 -1";
    let data = format!("{}\r\n{}\r\n{}\n{}\n", header, TCP_LINE, broken, second);
    let events = m.parse_connection_table(&data, &NetworkProtocol::TCP);
    assert_eq!(events.len(), 2);
    assert_eq!(events[0].local_address, "127.0.0.1");
    assert_eq!(events[1].remote_address, "93.184.216.34");
    assert_eq!(events[1].protocol, NetworkProtocol::TCP);
    let only_header = m.parse_connection_table(header, &NetworkProtocol::UDP);
    assert!(only_header.is_empty());
    assert!(m.parse_connection_table("", &NetworkProtocol::UDP).is_empty());
    let no_header = m.parse_connection_table(TCP_LINE, &NetworkProtocol::UDP);
    assert!(no_header.is_empty());
    let other = m.parse_connection_table(&format!("h\n{}", TCP_LINE), &NetworkProtocol::Other("SCTP".to_string()));
    assert_eq!(other.len(), 1);
    assert_eq!(other[0].protocol, NetworkProtocol::Other("SCTP".to_string()));
}
