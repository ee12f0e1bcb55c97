//! The file-activity producer: turns a change reported by the filesystem
//! notifier into an event, scanning new and modified files for signatures.

use crate::event::{
    current_time, fresh_event_id, is_random_uuid, EventKind, EventType, EventView, FileOperation,
    LogEvent, Timestamp,
};
use crate::scanner::{builtin_signatures, yara_matching, YaraScanner};
use crate::severity::Severity;
use crate::text::{contains_text, ends_with_text, str_contains, str_ends_with};
use vstd::prelude::*;
use vstd::string::StringExecFns;

verus! {

/// The kind of change the notifier reports for a path.
#[derive(Debug, Clone, Copy, PartialEq, Eq, Structural, Hash)]
pub enum ChangeKind {
    /// A change of unknown kind.
    Any,
    /// The file was opened, read or closed.
    Access,
    /// A file or directory appeared.
    Create,
    /// The contents of a file changed.
    Modify,
    /// A file or directory was given another name.
    Rename,
    /// Permissions, ownership or timestamps changed.
    Attribute,
    /// A file or directory disappeared.
    Remove,
    /// Anything else.
    Other,
}

/// One notification: the kind of change and the paths it concerns.
#[derive(Debug, Clone, PartialEq, Eq)]
pub struct FsChange {
    pub kind: ChangeKind,
    pub paths: Vec<String>,
}

/// The file operation an event records for a kind of change. Creations,
/// modifications and removals are recorded; every other kind is dropped.
pub open spec fn operation_of(kind: ChangeKind) -> Option<FileOperation> {
    match kind {
        ChangeKind::Create => Some(FileOperation::Create),
        ChangeKind::Modify => Some(FileOperation::Modify),
        ChangeKind::Remove => Some(FileOperation::Delete),
        _ => None,
    }
}

/// Severity of a file event before any scan, from the path alone: `High` for
/// a path that contains `/etc`, `passwd` or `shadow`; else `Medium` for one
/// that ends in `.conf` or `.cfg`; else `Low`.
pub open spec fn baseline_severity(path: Seq<char>) -> Severity {
    if contains_text(path, "/etc"@) || contains_text(path, "passwd"@) || contains_text(
        path,
        "shadow"@,
    ) {
        Severity::High
    } else if ends_with_text(path, ".conf"@) || ends_with_text(path, ".cfg"@) {
        Severity::Medium
    } else {
        Severity::Low
    }
}

/// Files are scanned when they are created or modified.
pub open spec fn is_scanned(operation: FileOperation) -> bool {
    operation == FileOperation::Create || operation == FileOperation::Modify
}

/// The tag that records one matched signature.
pub open spec fn signature_tag(identifier: Seq<char>) -> Seq<char> {
    "yara:"@ + identifier
}

/// The tags of a file event: the producer's own, then one for each matched
/// signature in the order in which the scanner reported them.
pub open spec fn file_event_tags(matches: Seq<Seq<char>>) -> Seq<Seq<char>> {
    seq!["file_monitor"@] + matches.map_values(|identifier: Seq<char>| signature_tag(identifier))
}

/// The event for a file operation on `path`, given what the scanner matched.
/// Without a match the severity is the baseline of the path and no rule is
/// set. With a match the severity is `Critical` and the rule is the first
/// matched signature.
pub open spec fn file_event(
    id: u128,
    timestamp: Timestamp,
    operation: FileOperation,
    path: Seq<char>,
    hostname: Seq<char>,
    matches: Seq<Seq<char>>,
) -> EventView {
    EventView {
        id,
        timestamp,
        severity: if matches.len() > 0 {
            Severity::Critical
        } else {
            baseline_severity(path)
        },
        kind: EventKind::FileIntegrity { path, operation, hash: None },
        hostname,
        tags: file_event_tags(matches),
        rule_triggered: matches.len() > 0,
        rule_name: if matches.len() > 0 {
            Some(matches[0])
        } else {
            None
        },
    }
}

/// Maps a kind of change to the file operation that is recorded for it.
pub fn classify_change(kind: ChangeKind) -> (operation: Option<FileOperation>)
    ensures
        operation == operation_of(kind),
{
    match kind {
        ChangeKind::Create => Some(FileOperation::Create),
        ChangeKind::Modify => Some(FileOperation::Modify),
        ChangeKind::Remove => Some(FileOperation::Delete),
        _ => None,
    }
}

/// Computes the severity that a path has before any scan.
pub fn path_severity(path: &str) -> (severity: Severity)
    ensures
        severity == baseline_severity(path@),
{
    if str_contains(path, "/etc") || str_contains(path, "passwd") || str_contains(path, "shadow") {
        Severity::High
    } else if str_ends_with(path, ".conf") || str_ends_with(path, ".cfg") {
        Severity::Medium
    } else {
        Severity::Low
    }
}

/// Tells whether a file is scanned after this operation.
pub fn wants_scan(operation: FileOperation) -> (scan: bool)
    ensures
        scan == is_scanned(operation),
{
    match operation {
        FileOperation::Create => true,
        FileOperation::Modify => true,
        _ => false,
    }
}

/// Builds the event for a file operation from the scanner's matches, with
/// the given identifier and creation time.
pub fn build_file_event(
    id: u128,
    timestamp: Timestamp,
    operation: FileOperation,
    path: &str,
    hostname: &str,
    matches: &Vec<String>,
) -> (event: LogEvent)
    ensures
        event@ == file_event(id, timestamp, operation, path@, hostname@, matches.deep_view()),
        event@.well_formed(),
{
    let severity = if matches.len() > 0 {
        Severity::Critical
    } else {
        path_severity(path)
    };
    let kind = EventType::FileIntegrity { path: path.to_owned(), operation, hash: None };
    let mut event = LogEvent::new_with(id, timestamp, severity, kind, hostname.to_owned()).with_tag(
        "file_monitor",
    );
    let ghost names = matches.deep_view();
    assert(event@.tags =~= file_event_tags(names.take(0)));
    let mut i: usize = 0;
    while i < matches.len()
        invariant
            i <= matches.len(),
            names == matches.deep_view(),
            event@.tags == file_event_tags(names.take(i as int)),
            event@.well_formed(),
            event@.id == id,
            event@.timestamp == timestamp,
            event@.severity == severity,
            event@.kind == kind@,
            event@.hostname == hostname@,
            !event@.rule_triggered,
        decreases matches.len() - i,
    {
        let tag = String::from_str("yara:").concat(matches[i].as_str());
        assert(tag@ == signature_tag(names[i as int]));
        event = event.with_tag(tag.as_str());
        assert(file_event_tags(names.take(i as int)).push(tag@) =~= file_event_tags(
            names.take(i + 1),
        ));
        i += 1;
    }
    assert(names.take(i as int) =~= names);
    if matches.len() > 0 {
        event = event.with_rule(matches[0].as_str());
    }
    event
}

/// A scan is due: a scanner is there, the file was created or modified, the
/// path names a regular file, and the file could be read.
pub open spec fn is_scan_due(
    scanner: Option<&YaraScanner>,
    operation: FileOperation,
    is_regular_file: bool,
    contents: Option<Seq<u8>>,
) -> bool {
    scanner is Some && is_scanned(operation) && is_regular_file && contents is Some
}

/// The matches that shape an event. Where a scan is due they are the
/// built-in signatures that match the file's contents, each once and in the
/// scanner's order; where none is due there are no matches.
pub open spec fn is_scan_outcome(
    scanner: Option<&YaraScanner>,
    operation: FileOperation,
    is_regular_file: bool,
    contents: Option<Seq<u8>>,
    matches: Seq<Seq<char>>,
) -> bool {
    if is_scan_due(scanner, operation, is_regular_file, contents) {
        matches.no_duplicates() && matches.to_set() == yara_matching(
            builtin_signatures(),
            contents.unwrap(),
        )
    } else {
        matches.len() == 0
    }
}

/// The path that the file system is asked about: the first path of a change
/// after which files are scanned, where a scanner is there.
pub open spec fn scan_candidate(change: &FsChange, scanner: Option<&YaraScanner>) -> Option<
    Seq<char>,
> {
    match operation_of(change.kind) {
        Some(operation) if scanner is Some && change.paths@.len() > 0 && is_scanned(operation) => {
            Some(change.paths@[0]@)
        },
        _ => None,
    }
}

/// The event that a notification gives, for what the file system answered
/// about the first path: whether it names a regular file, and its contents
/// if they could be read.
pub open spec fn is_event_for(
    event: Option<EventView>,
    change: &FsChange,
    hostname: Seq<char>,
    scanner: Option<&YaraScanner>,
    is_regular_file: bool,
    contents: Option<Seq<u8>>,
    id: u128,
    timestamp: Timestamp,
) -> bool {
    match operation_of(change.kind) {
        Some(operation) if change.paths@.len() > 0 => exists|matches: Seq<Seq<char>>|
            {
                &&& event == Some(
                    #[trigger] file_event(
                        id,
                        timestamp,
                        operation,
                        change.paths@[0]@,
                        hostname,
                        matches,
                    ),
                )
                &&& is_scan_outcome(scanner, operation, is_regular_file, contents, matches)
            },
        _ => event is None,
    }
}

/// The bytes of a file's contents, if there are any.
pub open spec fn bytes_of(contents: Option<&[u8]>) -> Option<Seq<u8>> {
    match contents {
        Some(data) => Some(data@),
        None => None,
    }
}

/// What the watcher asks of the file system. Nothing is assumed of the
/// answers: they depend on what is on disk when the question is asked.
pub trait FileSystem {
    /// Tells whether the path names a regular file at this moment.
    fn is_file(&self, path: &str) -> bool;

    /// Reads the contents of the file at the path; `None` when it cannot be
    /// read.
    fn read(&self, path: &str) -> Option<Vec<u8>>;
}

/// Finds the path that the file system is to be asked about, if a scan may
/// be due for this notification.
pub fn find_scan_candidate<'a>(change: &'a FsChange, scanner: Option<&YaraScanner>) -> (path:
    Option<&'a str>)
    ensures
        match path {
            Some(path) => scan_candidate(change, scanner) == Some(path@),
            None => scan_candidate(change, scanner) is None,
        },
{
    if scanner.is_none() || change.paths.len() == 0 {
        return None;
    }
    match classify_change(change.kind) {
        Some(operation) => if wants_scan(operation) {
            Some(change.paths[0].as_str())
        } else {
            None
        },
        None => None,
    }
}

/// Turns one notification into an event, given what the file system
/// answered about the first path, an identifier and a creation time.
///
/// There is no event when the kind of change is not recorded or the
/// notification names no path. Otherwise the event is about the first path.
/// The contents are scanned exactly when a scanner is given, the file was
/// created or modified, the path names a regular file and its contents were
/// read; the matches shape the event as [`file_event`] says. In every other
/// case the event is that of an empty list of matches.
pub fn file_event_for(
    change: &FsChange,
    hostname: &str,
    scanner: Option<&YaraScanner>,
    is_regular_file: bool,
    contents: Option<&[u8]>,
    id: u128,
    timestamp: Timestamp,
) -> (event: Option<LogEvent>)
    ensures
        event is None <==> operation_of(change.kind) is None || change.paths@.len() == 0,
        is_event_for(
            event.deep_view(),
            change,
            hostname@,
            scanner,
            is_regular_file,
            bytes_of(contents),
            id,
            timestamp,
        ),
        event matches Some(event) ==> event@.well_formed(),
{
    let operation = match classify_change(change.kind) {
        Some(operation) => operation,
        None => {
            return None;
        },
    };
    if change.paths.len() == 0 {
        return None;
    }
    let path = change.paths[0].as_str();
    let mut matches: Vec<String> = Vec::new();
    assert(matches.deep_view() =~= Seq::<Seq<char>>::empty());
    if let Some(scanner) = scanner {
        if wants_scan(operation) && is_regular_file {
            if let Some(data) = contents {
                matches = scanner.scan_file(data);
            }
        }
    }
    let event = build_file_event(id, timestamp, operation, path, hostname, &matches);
    assert(event@ == file_event(id, timestamp, operation, path@, hostname@, matches.deep_view()));
    assert(is_scan_outcome(
        scanner,
        operation,
        is_regular_file,
        bytes_of(contents),
        matches.deep_view(),
    ));
    Some(event)
}

/// Turns one notification into an event, or into nothing when the kind of
/// change is not recorded or the notification names no path.
///
/// The file system is asked about the first path, and only where a scanner
/// is given and the file was created or modified: whether the path names a
/// regular file and, if it does, for the file's contents. The event is what
/// [`file_event_for`] makes of the answers, with a fresh identifier and the
/// current time.
pub fn process_fs_event<F: FileSystem>(
    change: &FsChange,
    hostname: &str,
    scanner: Option<&YaraScanner>,
    files: &F,
) -> (event: Option<LogEvent>)
    ensures
        event is None <==> operation_of(change.kind) is None || change.paths@.len() == 0,
        event matches Some(event) ==> {
            &&& event@.well_formed()
            &&& is_random_uuid(event.id)
            &&& exists|is_regular_file: bool, contents: Option<Seq<u8>>| #[trigger]
                is_event_for(
                    Some(event@),
                    change,
                    hostname@,
                    scanner,
                    is_regular_file,
                    contents,
                    event.id,
                    event.timestamp,
                )
        },
{
    if classify_change(change.kind).is_none() || change.paths.len() == 0 {
        return None;
    }
    let mut is_regular_file = false;
    let mut contents: Option<Vec<u8>> = None;
    if let Some(path) = find_scan_candidate(change, scanner) {
        is_regular_file = files.is_file(path);
        if is_regular_file {
            contents = files.read(path);
        }
    }
    let id: u128 = fresh_event_id();
    let timestamp = current_time();
    let data: Option<&[u8]> = match &contents {
        Some(bytes) => Some(bytes.as_slice()),
        None => None,
    };
    let event = file_event_for(change, hostname, scanner, is_regular_file, data, id, timestamp);
    assert(is_event_for(
        event.deep_view(),
        change,
        hostname@,
        scanner,
        is_regular_file,
        bytes_of(data),
        id,
        timestamp,
    ));
    event
}

/// What the watcher does after it has handed an event to the queue.
#[derive(Debug, Clone, Copy, PartialEq, Eq, Structural, Hash)]
pub enum WatcherStep {
    /// Wait for the next notification.
    Continue,
    /// The queue is closed: end the loop.
    Stop,
}

/// Decides what the watcher does after a send: it goes on as long as the
/// queue took the event, and stops once the queue is closed.
pub fn after_send(delivered: bool) -> (step: WatcherStep)
    ensures
        step == if delivered {
            WatcherStep::Continue
        } else {
            WatcherStep::Stop
        },
{
    if delivered {
        WatcherStep::Continue
    } else {
        WatcherStep::Stop
    }
}

} // verus!
