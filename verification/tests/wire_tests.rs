use guardian::wire::{
    check_field, operation_text, parse_operation, parse_severity, parse_tag, severity_text,
    tag_text, Field, KindTag, WireError, WireField, WireValue,
};
use guardian::{EventType, FileOperation, LogEvent, Severity, Timestamp};

fn time() -> Timestamp {
    Timestamp { secs: 1_700_000_000, nanos: 250 }
}

fn all_fields() -> Vec<Field> {
    vec![
        Field::Id,
        Field::Timestamp,
        Field::Severity,
        Field::Type,
        Field::Path,
        Field::Operation,
        Field::Hash,
        Field::LocalAddr,
        Field::RemoteAddr,
        Field::Protocol,
        Field::State,
        Field::Source,
        Field::Level,
        Field::Message,
        Field::Pid,
        Field::Name,
        Field::CpuUsage,
        Field::MemoryUsage,
        Field::Hostname,
        Field::Tags,
        Field::RuleTriggered,
        Field::RuleName,
    ]
}

fn text(value: &str) -> WireValue {
    WireValue::Text(value.to_string())
}

fn entry(field: Field, value: WireValue) -> WireField {
    WireField { field, value }
}

fn file_event() -> LogEvent {
    LogEvent::new_with(
        0xa1a2a3a4_b1b2_41c2_91d2_d3d4d5d6d7d8,
        time(),
        Severity::High,
        EventType::FileIntegrity {
            path: "/etc/passwd".to_string(),
            operation: FileOperation::Modify,
            hash: Some("abc123".to_string()),
        },
        "localhost".to_string(),
    )
    .with_tag("file_monitor")
    .with_tag("yara:eicar_test_file")
    .with_rule("critical_file_modification")
}

fn minimal_log_entries() -> Vec<WireField> {
    vec![
        entry(Field::Id, WireValue::Uuid(5)),
        entry(Field::Timestamp, WireValue::Time(time())),
        entry(Field::Severity, text("LOW")),
        entry(Field::Type, text("system_log")),
        entry(Field::Source, text("kernel")),
        entry(Field::Level, text("info")),
        entry(Field::Message, text("up")),
        entry(Field::Hostname, text("h")),
    ]
}

#[test]
fn test_log_event_serialization() {
    let event = LogEvent::new(
        Severity::High,
        EventType::FileIntegrity {
            path: "/etc/passwd".to_string(),
            operation: FileOperation::Modify,
            hash: Some("abc123".to_string()),
        },
        "localhost".to_string(),
    );

    let wire = event.to_wire();
    let deserialized = LogEvent::from_wire(&wire).unwrap();

    assert_eq!(event.severity, deserialized.severity);
    assert_eq!(event.hostname, deserialized.hostname);
}

#[test]
fn wire_names_are_exact() {
    let names: Vec<&str> = all_fields().into_iter().map(|field| field.name()).collect();
    assert_eq!(
        names,
        vec![
            "id",
            "timestamp",
            "severity",
            "type",
            "path",
            "operation",
            "hash",
            "local_addr",
            "remote_addr",
            "protocol",
            "state",
            "source",
            "level",
            "message",
            "pid",
            "name",
            "cpu_usage",
            "memory_usage",
            "hostname",
            "tags",
            "rule_triggered",
            "rule_name",
        ]
    );
}

#[test]
fn field_is_found_again_by_its_name() {
    for field in all_fields() {
        assert_eq!(Field::from_name(field.name()), Some(field));
    }
    assert_eq!(Field::from_name("ID"), None);
    assert_eq!(Field::from_name("Type"), None);
    assert_eq!(Field::from_name(""), None);
    assert_eq!(Field::from_name("event_type"), None);
    assert_eq!(Field::from_name("hostname "), None);
}

#[test]
fn severities_are_written_in_upper_case() {
    assert_eq!(severity_text(Severity::Info), "INFO");
    assert_eq!(severity_text(Severity::Low), "LOW");
    assert_eq!(severity_text(Severity::Medium), "MEDIUM");
    assert_eq!(severity_text(Severity::High), "HIGH");
    assert_eq!(severity_text(Severity::Critical), "CRITICAL");
    for severity in
        [Severity::Info, Severity::Low, Severity::Medium, Severity::High, Severity::Critical]
    {
        assert_eq!(parse_severity(severity_text(severity)), Some(severity));
    }
    assert_eq!(parse_severity("high"), None);
    assert_eq!(parse_severity("High"), None);
    assert_eq!(parse_severity(""), None);
}

#[test]
fn operations_and_kinds_are_written_in_lower_case() {
    assert_eq!(operation_text(FileOperation::Create), "create");
    assert_eq!(operation_text(FileOperation::Modify), "modify");
    assert_eq!(operation_text(FileOperation::Delete), "delete");
    assert_eq!(operation_text(FileOperation::Rename), "rename");
    assert_eq!(operation_text(FileOperation::Chmod), "chmod");
    assert_eq!(parse_operation("chmod"), Some(FileOperation::Chmod));
    assert_eq!(parse_operation("create"), Some(FileOperation::Create));
    assert_eq!(parse_operation("Create"), None);
    assert_eq!(parse_operation("remove"), None);
    assert_eq!(tag_text(KindTag::FileIntegrity), "file_integrity");
    assert_eq!(tag_text(KindTag::NetworkSocket), "network_socket");
    assert_eq!(tag_text(KindTag::SystemLog), "system_log");
    assert_eq!(tag_text(KindTag::ProcessMonitor), "process_monitor");
    assert_eq!(parse_tag("process_monitor"), Some(KindTag::ProcessMonitor));
    assert_eq!(parse_tag("system_log"), Some(KindTag::SystemLog));
    assert_eq!(parse_tag("FileIntegrity"), None);
}

#[test]
fn file_event_is_laid_out_in_wire_order() {
    let wire = file_event().to_wire();
    assert_eq!(
        wire,
        vec![
            entry(Field::Id, WireValue::Uuid(0xa1a2a3a4_b1b2_41c2_91d2_d3d4d5d6d7d8)),
            entry(Field::Timestamp, WireValue::Time(time())),
            entry(Field::Severity, text("HIGH")),
            entry(Field::Type, text("file_integrity")),
            entry(Field::Path, text("/etc/passwd")),
            entry(Field::Operation, text("modify")),
            entry(Field::Hash, text("abc123")),
            entry(Field::Hostname, text("localhost")),
            entry(
                Field::Tags,
                WireValue::TextList(vec![
                    "file_monitor".to_string(),
                    "yara:eicar_test_file".to_string()
                ])
            ),
            entry(Field::RuleTriggered, WireValue::Bool(true)),
            entry(Field::RuleName, text("critical_file_modification")),
        ]
    );
}

#[test]
fn process_event_is_laid_out_in_wire_order() {
    let event = LogEvent::new_with(
        1,
        time(),
        Severity::Info,
        EventType::ProcessMonitor {
            pid: 77,
            name: "system".to_string(),
            cpu_usage: 12.5f32.to_bits(),
            memory_usage: u64::MAX,
        },
        "h".to_string(),
    );
    assert_eq!(
        event.to_wire(),
        vec![
            entry(Field::Id, WireValue::Uuid(1)),
            entry(Field::Timestamp, WireValue::Time(time())),
            entry(Field::Severity, text("INFO")),
            entry(Field::Type, text("process_monitor")),
            entry(Field::Pid, WireValue::Unsigned(77)),
            entry(Field::Name, text("system")),
            entry(Field::CpuUsage, WireValue::Single(12.5f32.to_bits())),
            entry(Field::MemoryUsage, WireValue::Unsigned(u64::MAX)),
            entry(Field::Hostname, text("h")),
            entry(Field::Tags, WireValue::TextList(Vec::new())),
            entry(Field::RuleTriggered, WireValue::Bool(false)),
            entry(Field::RuleName, WireValue::Null),
        ]
    );
}

#[test]
fn every_kind_of_event_is_read_back_field_for_field() {
    let events = vec![
        file_event(),
        LogEvent::new_with(
            2,
            time(),
            Severity::Low,
            EventType::FileIntegrity {
                path: "".to_string(),
                operation: FileOperation::Chmod,
                hash: None,
            },
            "".to_string(),
        ),
        LogEvent::new_with(
            3,
            time(),
            Severity::Medium,
            EventType::NetworkSocket {
                local_addr: "127.0.0.1:80".to_string(),
                remote_addr: Some("10.0.0.5:4444".to_string()),
                protocol: "tcp".to_string(),
                state: "LISTEN".to_string(),
            },
            "h".to_string(),
        )
        .with_tag("net"),
        LogEvent::new_with(
            4,
            time(),
            Severity::Critical,
            EventType::NetworkSocket {
                local_addr: "a".to_string(),
                remote_addr: None,
                protocol: "udp".to_string(),
                state: "".to_string(),
            },
            "h".to_string(),
        ),
        LogEvent::new_with(
            5,
            Timestamp { secs: -1, nanos: 999_999_999 },
            Severity::Info,
            EventType::SystemLog {
                source: "kernel".to_string(),
                level: "error".to_string(),
                message: "System \"panic\"\n".to_string(),
            },
            "h".to_string(),
        )
        .with_rule("r"),
        LogEvent::new_with(
            u128::MAX,
            time(),
            Severity::Info,
            EventType::ProcessMonitor {
                pid: u32::MAX,
                name: "system".to_string(),
                cpu_usage: f32::NAN.to_bits(),
                memory_usage: 0,
            },
            "h".to_string(),
        )
        .with_tag("system_monitor"),
        LogEvent::new(
            Severity::High,
            EventType::SystemLog {
                source: "s".to_string(),
                level: "l".to_string(),
                message: "m".to_string(),
            },
            "h".to_string(),
        ),
    ];
    for event in events {
        assert_eq!(LogEvent::from_wire(&event.to_wire()), Ok(event));
    }
}

#[test]
fn entries_may_come_in_any_order() {
    let event = file_event();
    let mut wire = event.to_wire();
    wire.reverse();
    assert_eq!(LogEvent::from_wire(&wire), Ok(event.clone()));
    let mut wire = event.to_wire();
    wire.rotate_left(5);
    assert_eq!(LogEvent::from_wire(&wire), Ok(event));
}

#[test]
fn absent_optional_fields_take_their_defaults() {
    let event = LogEvent::from_wire(&minimal_log_entries()).unwrap();
    assert!(event.tags.is_empty());
    assert!(!event.rule_triggered);
    assert_eq!(event.rule_name, None);
    assert_eq!(event.id, 5);
    assert_eq!(event.severity, Severity::Low);
    assert_eq!(event.hostname, "h");
    assert_eq!(
        event.event_type,
        EventType::SystemLog {
            source: "kernel".to_string(),
            level: "info".to_string(),
            message: "up".to_string(),
        }
    );

    let mut wire = vec![
        entry(Field::Path, text("/a")),
        entry(Field::Operation, text("delete")),
        entry(Field::Type, text("file_integrity")),
    ];
    wire.extend(minimal_log_entries().into_iter().filter(|e| e.field != Field::Type));
    let event = LogEvent::from_wire(&wire).unwrap();
    assert_eq!(
        event.event_type,
        EventType::FileIntegrity {
            path: "/a".to_string(),
            operation: FileOperation::Delete,
            hash: None,
        }
    );
}

#[test]
fn null_stands_for_an_absent_text() {
    let mut wire = minimal_log_entries();
    wire.push(entry(Field::RuleName, WireValue::Null));
    wire.push(entry(Field::RuleTriggered, WireValue::Bool(false)));
    let event = LogEvent::from_wire(&wire).unwrap();
    assert_eq!(event.rule_name, None);
    assert!(!event.rule_triggered);
}

#[test]
fn rule_flag_without_rule_name_is_refused() {
    let mut wire = minimal_log_entries();
    wire.push(entry(Field::RuleName, WireValue::Null));
    wire.push(entry(Field::RuleTriggered, WireValue::Bool(true)));
    assert_eq!(LogEvent::from_wire(&wire), Err(WireError::Invalid(Field::RuleTriggered)));
    let mut wire = minimal_log_entries();
    wire.push(entry(Field::RuleTriggered, WireValue::Bool(true)));
    assert_eq!(LogEvent::from_wire(&wire), Err(WireError::Invalid(Field::RuleTriggered)));
}

#[test]
fn rule_name_without_rule_flag_is_refused() {
    let mut wire = minimal_log_entries();
    wire.push(entry(Field::RuleName, text("r")));
    wire.push(entry(Field::RuleTriggered, WireValue::Bool(false)));
    assert_eq!(LogEvent::from_wire(&wire), Err(WireError::Invalid(Field::RuleTriggered)));
    let mut wire = minimal_log_entries();
    wire.push(entry(Field::RuleName, text("r")));
    assert_eq!(LogEvent::from_wire(&wire), Err(WireError::Invalid(Field::RuleTriggered)));
}

#[test]
fn rule_flag_and_rule_name_are_read_together() {
    let mut wire = minimal_log_entries();
    wire.push(entry(Field::RuleName, text("high_severity_alert")));
    wire.push(entry(Field::RuleTriggered, WireValue::Bool(true)));
    let event = LogEvent::from_wire(&wire).unwrap();
    assert!(event.rule_triggered);
    assert_eq!(event.rule_name, Some("high_severity_alert".to_string()));
}

#[test]
fn event_with_disagreeing_rule_fields_is_not_read_back() {
    let mut event = file_event();
    event.rule_name = None;
    assert_eq!(
        LogEvent::from_wire(&event.to_wire()),
        Err(WireError::Invalid(Field::RuleTriggered))
    );
    let mut event = file_event();
    event.rule_triggered = false;
    assert_eq!(
        LogEvent::from_wire(&event.to_wire()),
        Err(WireError::Invalid(Field::RuleTriggered))
    );
}

#[test]
fn field_faults_come_before_the_rule_fields_are_compared() {
    let mut wire: Vec<WireField> =
        minimal_log_entries().into_iter().filter(|e| e.field != Field::Hostname).collect();
    wire.push(entry(Field::RuleTriggered, WireValue::Bool(true)));
    assert_eq!(LogEvent::from_wire(&wire), Err(WireError::Missing(Field::Hostname)));
}

#[test]
fn whatever_is_read_keeps_flag_and_name_together() {
    let flags = vec![None, Some(WireValue::Bool(false)), Some(WireValue::Bool(true))];
    let names = vec![None, Some(WireValue::Null), Some(text("r"))];
    for flag in &flags {
        for name in &names {
            let mut wire = minimal_log_entries();
            if let Some(flag) = flag {
                wire.push(entry(Field::RuleTriggered, flag.clone()));
            }
            if let Some(name) = name {
                wire.push(entry(Field::RuleName, name.clone()));
            }
            if let Ok(event) = LogEvent::from_wire(&wire) {
                assert_eq!(event.rule_triggered, event.rule_name.is_some());
            }
        }
    }
}

#[test]
fn entries_of_another_kind_are_ignored() {
    let mut wire = minimal_log_entries();
    wire.push(entry(Field::Pid, WireValue::Other));
    wire.push(entry(Field::Path, WireValue::Null));
    wire.push(entry(Field::Path, WireValue::Null));
    let event = LogEvent::from_wire(&wire).unwrap();
    assert_eq!(event.id, 5);
}

#[test]
fn missing_field_is_an_error() {
    for field in [
        Field::Id,
        Field::Timestamp,
        Field::Severity,
        Field::Type,
        Field::Source,
        Field::Level,
        Field::Message,
        Field::Hostname,
    ] {
        let wire: Vec<WireField> =
            minimal_log_entries().into_iter().filter(|e| e.field != field).collect();
        assert_eq!(LogEvent::from_wire(&wire), Err(WireError::Missing(field)));
    }
    assert_eq!(LogEvent::from_wire(&Vec::new()), Err(WireError::Missing(Field::Id)));
}

#[test]
fn repeated_field_is_an_error() {
    for field in [Field::Id, Field::Type, Field::Message, Field::Hostname] {
        let mut wire = minimal_log_entries();
        let again = wire.iter().find(|e| e.field == field).unwrap().clone();
        wire.push(again);
        assert_eq!(LogEvent::from_wire(&wire), Err(WireError::Duplicate(field)));
    }
    let mut wire = minimal_log_entries();
    wire.push(entry(Field::Tags, WireValue::TextList(Vec::new())));
    wire.push(entry(Field::Tags, WireValue::TextList(Vec::new())));
    assert_eq!(LogEvent::from_wire(&wire), Err(WireError::Duplicate(Field::Tags)));
}

#[test]
fn value_of_the_wrong_shape_is_an_error() {
    let cases = vec![
        (Field::Id, text("5")),
        (Field::Timestamp, WireValue::Unsigned(0)),
        (Field::Severity, text("low")),
        (Field::Severity, WireValue::Null),
        (Field::Type, text("system-log")),
        (Field::Message, WireValue::Null),
        (Field::Hostname, WireValue::Other),
    ];
    for (field, value) in cases {
        let mut wire: Vec<WireField> =
            minimal_log_entries().into_iter().filter(|e| e.field != field).collect();
        wire.push(entry(field, value));
        assert_eq!(LogEvent::from_wire(&wire), Err(WireError::Invalid(field)));
    }
    let optional = vec![
        (Field::Tags, WireValue::Null),
        (Field::Tags, text("a")),
        (Field::RuleTriggered, WireValue::Null),
        (Field::RuleTriggered, WireValue::Unsigned(1)),
        (Field::RuleName, WireValue::Bool(false)),
    ];
    for (field, value) in optional {
        let mut wire = minimal_log_entries();
        wire.push(entry(field, value));
        assert_eq!(LogEvent::from_wire(&wire), Err(WireError::Invalid(field)));
    }
}

#[test]
fn process_identifier_must_fit_in_32_bits() {
    let base = |pid: WireValue| {
        vec![
            entry(Field::Id, WireValue::Uuid(5)),
            entry(Field::Timestamp, WireValue::Time(time())),
            entry(Field::Severity, text("INFO")),
            entry(Field::Type, text("process_monitor")),
            entry(Field::Pid, pid),
            entry(Field::Name, text("system")),
            entry(Field::CpuUsage, WireValue::Single(95.0f32.to_bits())),
            entry(Field::MemoryUsage, WireValue::Unsigned(1 << 40)),
            entry(Field::Hostname, text("h")),
        ]
    };
    let event = LogEvent::from_wire(&base(WireValue::Unsigned(4_294_967_295))).unwrap();
    assert_eq!(
        event.event_type,
        EventType::ProcessMonitor {
            pid: u32::MAX,
            name: "system".to_string(),
            cpu_usage: 95.0f32.to_bits(),
            memory_usage: 1 << 40,
        }
    );
    assert_eq!(
        LogEvent::from_wire(&base(WireValue::Unsigned(4_294_967_296))),
        Err(WireError::Invalid(Field::Pid))
    );
    assert_eq!(
        LogEvent::from_wire(&base(WireValue::Single(0))),
        Err(WireError::Invalid(Field::Pid))
    );
}

#[test]
fn first_fault_in_schema_order_is_reported() {
    // Severity is wrong and host name is missing: severity comes first.
    let wire: Vec<WireField> = minimal_log_entries()
        .into_iter()
        .filter(|e| e.field != Field::Hostname && e.field != Field::Severity)
        .chain(vec![entry(Field::Severity, text("?"))])
        .collect();
    assert_eq!(LogEvent::from_wire(&wire), Err(WireError::Invalid(Field::Severity)));
    // An unknown kind is reported before the kind's own fields are looked at.
    let wire: Vec<WireField> = minimal_log_entries()
        .into_iter()
        .filter(|e| e.field != Field::Type && e.field != Field::Source)
        .chain(vec![entry(Field::Type, text("other"))])
        .collect();
    assert_eq!(LogEvent::from_wire(&wire), Err(WireError::Invalid(Field::Type)));
}

#[test]
fn check_field_looks_at_one_field_only() {
    let wire = minimal_log_entries();
    assert_eq!(check_field(&wire, Field::Id), None);
    assert_eq!(check_field(&wire, Field::Tags), None);
    assert_eq!(check_field(&wire, Field::Path), Some(WireError::Missing(Field::Path)));
    assert_eq!(check_field(&wire, Field::Hash), None);
}
