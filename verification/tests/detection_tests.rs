use std::sync::Arc;

use icenet_agent::config::Config;
use icenet_agent::detection::DetectionEngine;
use icenet_agent::models::{
    DetectionType, Event, EventData, EventType, FileEvent, FileOperation, NetworkDirection,
    NetworkEvent, NetworkProtocol, OsType, ProcessEvent, ProcessOperation, Severity,
};
use icenet_agent::processor::{EventProcessor, BATCH_SIZE};

fn engine() -> DetectionEngine {
    DetectionEngine::new(Arc::new(Config::try_default().expect("random id")))
}

fn process_event(command_line: &str) -> ProcessEvent {
    ProcessEvent {
        process_id: 4242,
        parent_process_id: 1,
        process_name: "powershell.exe".to_string(),
        command_line: command_line.to_string(),
        executable_path: "C:\\Windows\\powershell.exe".to_string(),
        user: "alice".to_string(),
        hash_sha256: None,
        parent_name: "explorer.exe".to_string(),
        operation: ProcessOperation::Create,
    }
}

fn file_event(path: &str) -> FileEvent {
    FileEvent {
        path: path.to_string(),
        operation: FileOperation::Modify,
        process_id: 7,
        process_name: "agent".to_string(),
        user: "bob".to_string(),
        hash_sha256: Some("ab".repeat(32)),
        hash_md5: None,
        size: Some(12),
        is_executable: false,
    }
}

fn event_with(data: EventData, severity: Severity) -> Event {
    Event {
        event_id: 1,
        agent_id: 2,
        timestamp: 3,
        event_type: EventType::ProcessCreated,
        severity,
        hostname: "host".to_string(),
        os_type: OsType::Linux,
        event_data: data,
        detection: None,
    }
}

fn network_event() -> NetworkEvent {
    NetworkEvent {
        process_id: 0,
        process_name: "unknown".to_string(),
        protocol: NetworkProtocol::TCP,
        local_address: "10.0.0.2".to_string(),
        local_port: 5000,
        remote_address: "8.8.8.8".to_string(),
        remote_port: 443,
        direction: NetworkDirection::Inbound,
        bytes_sent: 0,
        bytes_received: 0,
        dns_query: None,
    }
}

#[test]
fn suspicious_command_is_detected_case_insensitively() {
    let e = engine();
    assert!(e.is_suspicious_process(&process_event("POWERSHELL.EXE -Enc SQBFAFgA")));
    assert!(e.is_suspicious_process(&process_event("x IEX(New-Object Net.WebClient)")));
    assert!(e.is_suspicious_process(&process_event("certutil -decode a b")));
    assert!(!e.is_suspicious_process(&process_event("notepad.exe readme.txt")));
    assert!(!e.is_suspicious_process(&process_event("")));
}

#[test]
fn ransomware_extension_is_detected_at_the_end_only() {
    let e = engine();
    assert!(e.is_ransomware_behavior(&file_event("/home/u/report.docx.LOCKED")));
    assert!(e.is_ransomware_behavior(&file_event("C:\\data\\x.wannacry")));
    assert!(!e.is_ransomware_behavior(&file_event("/home/u/x.locked.txt")));
    assert!(!e.is_ransomware_behavior(&file_event("/home/u/crypt")));
}

#[test]
fn known_malware_database_is_empty() {
    assert!(!engine().is_known_malware_hash("44d88612fea8a8f36de82e1278abb02f"));
}

#[test]
fn analyze_flags_suspicious_process_as_high() {
    let e = engine();
    let ev = event_with(EventData::Process(process_event("cmd.exe /c echo hi")), Severity::Low);
    let out = e.analyze(ev).expect("random id");
    assert_eq!(out.severity, Severity::High);
    let d = out.detection.expect("detection");
    assert_eq!(d.detection_type, DetectionType::Behavioral);
    assert_eq!(d.confidence_percent, 75);
    assert_eq!(d.malware_family, None);
    assert_eq!(d.description, "Suspicious process behavior detected");
    assert_eq!(d.mitre_tactics, vec!["Execution".to_string()]);
    assert_eq!(d.mitre_techniques, vec!["T1059".to_string()]);
    assert_eq!(d.indicators, vec!["cmd.exe /c echo hi".to_string()]);
    assert_eq!(out.event_id, 1);
    assert_eq!(out.hostname, "host");
}

#[test]
fn analyze_flags_ransomware_file_as_high() {
    let e = engine();
    let ev = event_with(EventData::File(file_event("/srv/a.ryuk")), Severity::Low);
    let out = e.analyze(ev).expect("random id");
    assert_eq!(out.severity, Severity::High);
    let d = out.detection.expect("detection");
    assert_eq!(d.detection_type, DetectionType::Behavioral);
    assert_eq!(d.confidence_percent, 85);
    assert_eq!(d.malware_family.as_deref(), Some("Ransomware"));
    assert_eq!(d.description, "Potential ransomware activity detected");
    assert_eq!(d.mitre_tactics, vec!["Impact".to_string()]);
    assert_eq!(d.mitre_techniques, vec!["T1486".to_string()]);
    assert_eq!(d.indicators, vec!["/srv/a.ryuk".to_string()]);
}

#[test]
fn analyze_leaves_benign_events_unchanged() {
    let e = engine();
    let out = e.analyze(event_with(EventData::File(file_event("/srv/a.txt")), Severity::Critical)).expect("no detection due");
    assert_eq!(out.severity, Severity::Critical);
    assert!(out.detection.is_none());
    let out = e.analyze(event_with(EventData::Network(network_event()), Severity::Medium)).expect("no detection due");
    assert_eq!(out.severity, Severity::Medium);
    assert!(out.detection.is_none());
    let out = e.analyze(event_with(EventData::Custom("{}".to_string()), Severity::Info)).expect("no detection due");
    assert!(out.detection.is_none());
    let out = e.analyze(event_with(EventData::File(file_event("/srv/test.txt.bak")), Severity::Low)).expect("no detection due");
    assert!(out.detection.is_none());
    let out = e.analyze(event_with(EventData::File(file_event("/srv/mytest.txt")), Severity::Low)).expect("no detection due");
    assert!(out.detection.is_none());
}

#[test]
fn analyze_flags_detection_test_file() {
    let e = engine();
    for path in ["/tmp/test.txt", "C:\\temp\\test.txt", "test.txt", "/home/u/TEST.TXT"] {
        let out = e.analyze(event_with(EventData::File(file_event(path)), Severity::Low)).expect("random id");
        assert_eq!(out.severity, Severity::High);
        let d = out.detection.expect("detection");
        assert_eq!(d.detection_type, DetectionType::Behavioral);
        assert_eq!(d.confidence_percent, 100);
        assert_eq!(d.malware_family, None);
        assert_eq!(d.description, "Detection test file written");
        assert!(d.mitre_tactics.is_empty() && d.mitre_techniques.is_empty());
        assert_eq!(d.indicators, vec![path.to_string()]);
        assert_eq!(d.detection_id & 0xF000_C000_0000_0000_0000, 0x4000_8000_0000_0000_0000);
    }
}

#[test]
fn detections_get_distinct_ids() {
    let e = engine();
    let a = e.analyze(event_with(EventData::File(file_event("/a.crypt")), Severity::Low)).expect("random id");
    let b = e.analyze(event_with(EventData::File(file_event("/a.crypt")), Severity::Low)).expect("random id");
    assert_ne!(a.detection.unwrap().detection_id, b.detection.unwrap().detection_id);
}

#[test]
fn processor_counts_events_and_threats() {
    let e = engine();
    let mut p = EventProcessor::new();
    let a = p.record(&e, event_with(EventData::File(file_event("/a.txt")), Severity::Low)).expect("no detection due");
    assert!(a.detection.is_none());
    let b = p.record(&e, event_with(EventData::File(file_event("/a.locky")), Severity::Low)).expect("random id");
    assert!(b.detection.is_some());
    assert_eq!(p.events_processed(), 2);
    assert_eq!(p.threats_detected(), 1);
    assert!(p.threats_detected() <= p.events_processed());
    assert_eq!(p.pending_len(), 0);
}

#[test]
fn processor_sends_full_batches_and_keeps_order() {
    let mut p = EventProcessor::new();
    let mut sent: Vec<Event> = Vec::new();
    for i in 0..(2 * BATCH_SIZE + 5) {
        let mut ev = event_with(EventData::Custom("{}".to_string()), Severity::Info);
        ev.event_id = i as u128;
        if let Some(batch) = p.enqueue(ev) {
            assert_eq!(batch.len(), BATCH_SIZE);
            sent.extend(batch);
        }
    }
    assert_eq!(sent.len(), 2 * BATCH_SIZE);
    assert_eq!(p.pending_len(), 5);
    let rest = p.tick().expect("pending events are flushed on a tick");
    assert_eq!(rest.len(), 5);
    sent.extend(rest);
    for (i, ev) in sent.iter().enumerate() {
        assert_eq!(ev.event_id, i as u128);
    }
    assert!(p.tick().is_none());
    assert_eq!(p.pending_len(), 0);
}
