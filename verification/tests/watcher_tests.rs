use guardian::scanner::YaraScanner;
use guardian::watcher::{
    after_send, build_file_event, classify_change, file_event_for, find_scan_candidate,
    path_severity, process_fs_event, wants_scan, ChangeKind, FileSystem, FsChange, WatcherStep,
};
use guardian::{EventType, FileOperation, Severity, Timestamp};

const EICAR: &[u8] = b"X5O!P%@AP[4\\PZX54(P^)7CC)7}$EICAR-STANDARD-ANTIVIRUS-TEST-FILE!$H+H*";

/// A file system with one regular file, one directory and one file that
/// cannot be read.
struct OneFile {
    path: &'static str,
    contents: &'static [u8],
}

impl FileSystem for OneFile {
    fn is_file(&self, path: &str) -> bool {
        path == self.path || path == "/unreadable"
    }

    fn read(&self, path: &str) -> Option<Vec<u8>> {
        if path == self.path {
            Some(self.contents.to_vec())
        } else {
            None
        }
    }
}

fn change(kind: ChangeKind, paths: &[&str]) -> FsChange {
    FsChange { kind, paths: paths.iter().map(|path| path.to_string()).collect() }
}

fn time() -> Timestamp {
    Timestamp { secs: 1_700_000_000, nanos: 5 }
}

#[test]
fn only_create_modify_and_remove_are_recorded() {
    assert_eq!(classify_change(ChangeKind::Create), Some(FileOperation::Create));
    assert_eq!(classify_change(ChangeKind::Modify), Some(FileOperation::Modify));
    assert_eq!(classify_change(ChangeKind::Remove), Some(FileOperation::Delete));
    assert_eq!(classify_change(ChangeKind::Rename), None);
    assert_eq!(classify_change(ChangeKind::Attribute), None);
    assert_eq!(classify_change(ChangeKind::Access), None);
    assert_eq!(classify_change(ChangeKind::Any), None);
    assert_eq!(classify_change(ChangeKind::Other), None);
}

#[test]
fn only_created_and_modified_files_are_scanned() {
    assert!(wants_scan(FileOperation::Create));
    assert!(wants_scan(FileOperation::Modify));
    assert!(!wants_scan(FileOperation::Delete));
    assert!(!wants_scan(FileOperation::Rename));
    assert!(!wants_scan(FileOperation::Chmod));
}

#[test]
fn baseline_severity_follows_the_path() {
    assert_eq!(path_severity("/etc/hosts"), Severity::High);
    assert_eq!(path_severity("/srv/etc"), Severity::High);
    assert_eq!(path_severity("/home/u/passwd.bak"), Severity::High);
    assert_eq!(path_severity("/var/backups/shadow-"), Severity::High);
    assert_eq!(path_severity("/opt/app/app.conf"), Severity::Medium);
    assert_eq!(path_severity("/opt/app/app.cfg"), Severity::Medium);
    assert_eq!(path_severity("/opt/app/app.conf.bak"), Severity::Low);
    assert_eq!(path_severity("/opt/app/cfg"), Severity::Low);
    assert_eq!(path_severity("/tmp/notes.txt"), Severity::Low);
    assert_eq!(path_severity(""), Severity::Low);
    assert_eq!(path_severity(".cfg"), Severity::Medium);
}

#[test]
fn path_heuristics_apply_in_order_of_precedence() {
    // Both the first and the second heuristic apply: the first wins.
    assert_eq!(path_severity("/etc/nginx/nginx.conf"), Severity::High);
    assert_eq!(path_severity("/opt/shadow.cfg"), Severity::High);
}

#[test]
fn scanner_matches_escalate_the_event() {
    let matches = vec!["eicar_test_file".to_string(), "suspicious_shell_script".to_string()];
    let event =
        build_file_event(7, time(), FileOperation::Create, "/tmp/dropper.sh", "host", &matches);
    assert_eq!(event.severity, Severity::Critical);
    assert_eq!(
        event.tags,
        vec![
            "file_monitor".to_string(),
            "yara:eicar_test_file".to_string(),
            "yara:suspicious_shell_script".to_string(),
        ]
    );
    assert!(event.rule_triggered);
    assert_eq!(event.rule_name, Some("eicar_test_file".to_string()));
    assert_eq!(
        event.event_type,
        EventType::FileIntegrity {
            path: "/tmp/dropper.sh".to_string(),
            operation: FileOperation::Create,
            hash: None,
        }
    );
    assert_eq!(event.hostname, "host");
    assert_eq!(event.id, 7);
    assert_eq!(event.timestamp, time());
}

#[test]
fn event_without_matches_keeps_the_baseline() {
    let none: Vec<String> = Vec::new();
    let event =
        build_file_event(1, time(), FileOperation::Modify, "/opt/app/app.conf", "host", &none);
    assert_eq!(event.severity, Severity::Medium);
    assert_eq!(event.tags, vec!["file_monitor".to_string()]);
    assert!(!event.rule_triggered);
    assert_eq!(event.rule_name, None);
}

#[test]
fn single_match_gives_one_tag() {
    let matches = vec!["python_reverse_shell".to_string()];
    let event = build_file_event(1, time(), FileOperation::Modify, "/etc/x", "host", &matches);
    assert_eq!(event.severity, Severity::Critical);
    assert_eq!(
        event.tags,
        vec!["file_monitor".to_string(), "yara:python_reverse_shell".to_string()]
    );
    assert_eq!(event.rule_name, Some("python_reverse_shell".to_string()));
}

#[test]
fn unrecorded_kinds_give_no_event() {
    let files = OneFile { path: "/tmp/a", contents: b"hello" };
    for kind in [
        ChangeKind::Rename,
        ChangeKind::Attribute,
        ChangeKind::Access,
        ChangeKind::Any,
        ChangeKind::Other,
    ] {
        assert_eq!(process_fs_event(&change(kind, &["/tmp/a"]), "host", None, &files), None);
    }
}

#[test]
fn notification_without_paths_gives_no_event() {
    let files = OneFile { path: "/tmp/a", contents: b"hello" };
    assert_eq!(process_fs_event(&change(ChangeKind::Create, &[]), "host", None, &files), None);
}

#[test]
fn event_is_about_the_first_path() {
    let files = OneFile { path: "/tmp/a", contents: b"hello" };
    let event =
        process_fs_event(&change(ChangeKind::Remove, &["/etc/one", "/tmp/two"]), "host", None, &files)
            .unwrap();
    assert_eq!(
        event.event_type,
        EventType::FileIntegrity {
            path: "/etc/one".to_string(),
            operation: FileOperation::Delete,
            hash: None,
        }
    );
    assert_eq!(event.severity, Severity::High);
    assert_eq!(event.hostname, "host");
    assert_eq!(event.tags, vec!["file_monitor".to_string()]);
    assert!(!event.rule_triggered);
    assert_eq!((event.id >> 76) & 0xf, 4);
}

#[test]
fn without_scanner_the_file_is_not_scanned() {
    let files = OneFile { path: "/tmp/eicar.com", contents: EICAR };
    let event =
        process_fs_event(&change(ChangeKind::Create, &["/tmp/eicar.com"]), "host", None, &files)
            .unwrap();
    assert_eq!(event.severity, Severity::Low);
    assert_eq!(event.tags, vec!["file_monitor".to_string()]);
    assert_eq!(event.rule_name, None);
}

#[test]
fn created_file_with_signature_is_escalated() {
    let scanner = YaraScanner::new().unwrap();
    let files = OneFile { path: "/tmp/eicar.com", contents: EICAR };
    for kind in [ChangeKind::Create, ChangeKind::Modify] {
        let event =
            process_fs_event(&change(kind, &["/tmp/eicar.com"]), "host", Some(&scanner), &files)
                .unwrap();
        assert_eq!(event.severity, Severity::Critical);
        assert_eq!(
            event.tags,
            vec!["file_monitor".to_string(), "yara:eicar_test_file".to_string()]
        );
        assert!(event.rule_triggered);
        assert_eq!(event.rule_name, Some("eicar_test_file".to_string()));
    }
}

#[test]
fn removed_file_is_not_scanned() {
    let scanner = YaraScanner::new().unwrap();
    let files = OneFile { path: "/tmp/eicar.com", contents: EICAR };
    let event =
        process_fs_event(&change(ChangeKind::Remove, &["/tmp/eicar.com"]), "host", Some(&scanner), &files)
            .unwrap();
    assert_eq!(event.severity, Severity::Low);
    assert_eq!(event.tags, vec!["file_monitor".to_string()]);
    assert!(!event.rule_triggered);
}

#[test]
fn directory_and_unreadable_file_are_not_scanned() {
    let scanner = YaraScanner::new().unwrap();
    let files = OneFile { path: "/tmp/eicar.com", contents: EICAR };
    let event =
        process_fs_event(&change(ChangeKind::Create, &["/tmp/dir"]), "host", Some(&scanner), &files)
            .unwrap();
    assert_eq!(event.severity, Severity::Low);
    assert_eq!(event.tags, vec!["file_monitor".to_string()]);
    let event =
        process_fs_event(&change(ChangeKind::Create, &["/unreadable"]), "host", Some(&scanner), &files)
            .unwrap();
    assert_eq!(event.severity, Severity::Low);
    assert_eq!(event.tags, vec!["file_monitor".to_string()]);
}

#[test]
fn clean_file_keeps_the_baseline() {
    let scanner = YaraScanner::new().unwrap();
    let files = OneFile { path: "/opt/app/app.cfg", contents: b"port = 8080\n" };
    let event =
        process_fs_event(&change(ChangeKind::Modify, &["/opt/app/app.cfg"]), "host", Some(&scanner), &files)
            .unwrap();
    assert_eq!(event.severity, Severity::Medium);
    assert_eq!(event.tags, vec!["file_monitor".to_string()]);
    assert!(!event.rule_triggered);
    assert_eq!(event.rule_name, None);
}

#[test]
fn watcher_goes_on_until_the_queue_is_closed() {
    assert_eq!(after_send(true), WatcherStep::Continue);
    assert_eq!(after_send(false), WatcherStep::Stop);
}

#[test]
fn file_system_is_asked_only_where_a_scan_may_be_due() {
    let scanner = YaraScanner::new().unwrap();
    let create = change(ChangeKind::Create, &["/tmp/a", "/tmp/b"]);
    let modify = change(ChangeKind::Modify, &["/tmp/a"]);
    assert_eq!(find_scan_candidate(&create, Some(&scanner)), Some("/tmp/a"));
    assert_eq!(find_scan_candidate(&modify, Some(&scanner)), Some("/tmp/a"));
    assert_eq!(find_scan_candidate(&create, None), None);
    assert_eq!(find_scan_candidate(&change(ChangeKind::Remove, &["/tmp/a"]), Some(&scanner)), None);
    assert_eq!(find_scan_candidate(&change(ChangeKind::Rename, &["/tmp/a"]), Some(&scanner)), None);
    assert_eq!(find_scan_candidate(&change(ChangeKind::Create, &[]), Some(&scanner)), None);
}

/// A file system that counts what it is asked.
struct Counting {
    asked: std::cell::Cell<u32>,
    read: std::cell::Cell<u32>,
    regular: bool,
}

impl FileSystem for Counting {
    fn is_file(&self, path: &str) -> bool {
        assert_eq!(path, "/tmp/first");
        self.asked.set(self.asked.get() + 1);
        self.regular
    }

    fn read(&self, path: &str) -> Option<Vec<u8>> {
        assert_eq!(path, "/tmp/first");
        self.read.set(self.read.get() + 1);
        Some(EICAR.to_vec())
    }
}

fn counting(regular: bool) -> Counting {
    Counting { asked: std::cell::Cell::new(0), read: std::cell::Cell::new(0), regular }
}

#[test]
fn regular_file_is_probed_and_read_once() {
    let scanner = YaraScanner::new().unwrap();
    let files = counting(true);
    let created = change(ChangeKind::Create, &["/tmp/first", "/tmp/second"]);
    let event = process_fs_event(&created, "host", Some(&scanner), &files).unwrap();
    assert_eq!((files.asked.get(), files.read.get()), (1, 1));
    assert_eq!(event.rule_name, Some("eicar_test_file".to_string()));
}

#[test]
fn what_is_no_regular_file_is_not_read() {
    let scanner = YaraScanner::new().unwrap();
    let files = counting(false);
    let created = change(ChangeKind::Modify, &["/tmp/first"]);
    let event = process_fs_event(&created, "host", Some(&scanner), &files).unwrap();
    assert_eq!((files.asked.get(), files.read.get()), (1, 0));
    assert_eq!(event.tags, vec!["file_monitor".to_string()]);
}

#[test]
fn file_system_is_not_asked_where_no_scan_is_due() {
    let scanner = YaraScanner::new().unwrap();
    let files = counting(true);
    let removed = change(ChangeKind::Remove, &["/tmp/first"]);
    assert!(process_fs_event(&removed, "host", Some(&scanner), &files).is_some());
    let renamed = change(ChangeKind::Rename, &["/tmp/first"]);
    assert!(process_fs_event(&renamed, "host", Some(&scanner), &files).is_none());
    let created = change(ChangeKind::Create, &["/tmp/first"]);
    assert!(process_fs_event(&created, "host", None, &files).is_some());
    let nothing = change(ChangeKind::Create, &[]);
    assert!(process_fs_event(&nothing, "host", Some(&scanner), &files).is_none());
    assert_eq!((files.asked.get(), files.read.get()), (0, 0));
}

#[test]
fn answers_of_the_file_system_fix_the_event() {
    let scanner = YaraScanner::new().unwrap();
    let created = change(ChangeKind::Create, &["/tmp/first", "/tmp/second"]);
    let id = 0x1234_5678_9abc_4def_8123_4567_89ab_cdef;

    let event =
        file_event_for(&created, "host", Some(&scanner), true, Some(EICAR), id, time()).unwrap();
    assert_eq!(event.id, id);
    assert_eq!(event.timestamp, time());
    assert_eq!(event.severity, Severity::Critical);
    assert_eq!(event.tags, vec!["file_monitor".to_string(), "yara:eicar_test_file".to_string()]);
    assert_eq!(event.rule_name, Some("eicar_test_file".to_string()));
    assert_eq!(
        event.event_type,
        EventType::FileIntegrity {
            path: "/tmp/first".to_string(),
            operation: FileOperation::Create,
            hash: None,
        }
    );

    // Not a regular file, no contents, no scanner, or an operation that is
    // not scanned: no matches.
    let plain = build_file_event(id, time(), FileOperation::Create, "/tmp/first", "host", &Vec::new());
    assert_eq!(
        file_event_for(&created, "host", Some(&scanner), false, Some(EICAR), id, time()),
        Some(plain.clone())
    );
    assert_eq!(
        file_event_for(&created, "host", Some(&scanner), true, None, id, time()),
        Some(plain.clone())
    );
    assert_eq!(
        file_event_for(&created, "host", None, true, Some(EICAR), id, time()),
        Some(plain.clone())
    );
    let removed = change(ChangeKind::Remove, &["/tmp/first"]);
    let gone = build_file_event(id, time(), FileOperation::Delete, "/tmp/first", "host", &Vec::new());
    assert_eq!(
        file_event_for(&removed, "host", Some(&scanner), true, Some(EICAR), id, time()),
        Some(gone)
    );

    // Clean contents: scanned, nothing found.
    assert_eq!(
        file_event_for(&created, "host", Some(&scanner), true, Some(b"hello"), id, time()),
        Some(plain)
    );

    // Kinds that are not recorded, and notifications without a path.
    let renamed = change(ChangeKind::Rename, &["/tmp/first"]);
    assert_eq!(
        file_event_for(&renamed, "host", Some(&scanner), true, Some(EICAR), id, time()),
        None
    );
    let nothing = change(ChangeKind::Create, &[]);
    assert_eq!(
        file_event_for(&nothing, "host", Some(&scanner), true, Some(EICAR), id, time()),
        None
    );
}
