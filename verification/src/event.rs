//! The event that flows through the pipeline, and its mathematical view.

use crate::severity::Severity;
use vstd::prelude::*;

verus! {

/// What happened to a file.
#[derive(Debug, Clone, Copy, PartialEq, Eq, Structural, Hash)]
pub enum FileOperation {
    Create,
    Modify,
    Delete,
    Rename,
    Chmod,
}

/// A point in time: whole seconds since 1970-01-01T00:00:00Z, and the
/// nanoseconds since the last whole second.
#[derive(Debug, Clone, Copy, PartialEq, Eq, Structural, Hash)]
pub struct Timestamp {
    pub secs: i64,
    pub nanos: u32,
}

/// The observation an event carries.
///
/// `cpu_usage` holds the bit pattern of an IEEE-754 single-precision number,
/// so that a percentage is kept exactly and can be compared with integers.
#[derive(Debug, Clone, PartialEq, Eq)]
pub enum EventType {
    FileIntegrity { path: String, operation: FileOperation, hash: Option<String> },
    NetworkSocket {
        local_addr: String,
        remote_addr: Option<String>,
        protocol: String,
        state: String,
    },
    SystemLog { source: String, level: String, message: String },
    ProcessMonitor { pid: u32, name: String, cpu_usage: u32, memory_usage: u64 },
}

/// Mathematical view of an [`EventType`]: texts are sequences of characters.
pub ghost enum EventKind {
    FileIntegrity { path: Seq<char>, operation: FileOperation, hash: Option<Seq<char>> },
    NetworkSocket {
        local_addr: Seq<char>,
        remote_addr: Option<Seq<char>>,
        protocol: Seq<char>,
        state: Seq<char>,
    },
    SystemLog { source: Seq<char>, level: Seq<char>, message: Seq<char> },
    ProcessMonitor { pid: u32, name: Seq<char>, cpu_usage: u32, memory_usage: u64 },
}

impl View for EventType {
    type V = EventKind;

    open spec fn view(&self) -> EventKind {
        match *self {
            EventType::FileIntegrity { path, operation, hash } => EventKind::FileIntegrity {
                path: path@,
                operation,
                hash: hash.deep_view(),
            },
            EventType::NetworkSocket {
                local_addr,
                remote_addr,
                protocol,
                state,
            } => EventKind::NetworkSocket {
                local_addr: local_addr@,
                remote_addr: remote_addr.deep_view(),
                protocol: protocol@,
                state: state@,
            },
            EventType::SystemLog { source, level, message } => EventKind::SystemLog {
                source: source@,
                level: level@,
                message: message@,
            },
            EventType::ProcessMonitor {
                pid,
                name,
                cpu_usage,
                memory_usage,
            } => EventKind::ProcessMonitor { pid, name: name@, cpu_usage, memory_usage },
        }
    }
}

/// One structured observation. `id` is the 128-bit value of a UUID.
#[derive(Debug, Clone, PartialEq, Eq)]
pub struct LogEvent {
    pub id: u128,
    pub timestamp: Timestamp,
    pub severity: Severity,
    pub event_type: EventType,
    pub hostname: String,
    pub tags: Vec<String>,
    pub rule_triggered: bool,
    pub rule_name: Option<String>,
}

/// Mathematical view of a [`LogEvent`].
pub ghost struct EventView {
    pub id: u128,
    pub timestamp: Timestamp,
    pub severity: Severity,
    pub kind: EventKind,
    pub hostname: Seq<char>,
    pub tags: Seq<Seq<char>>,
    pub rule_triggered: bool,
    pub rule_name: Option<Seq<char>>,
}

impl View for LogEvent {
    type V = EventView;

    open spec fn view(&self) -> EventView {
        EventView {
            id: self.id,
            timestamp: self.timestamp,
            severity: self.severity,
            kind: self.event_type@,
            hostname: self.hostname@,
            tags: self.tags.deep_view(),
            rule_triggered: self.rule_triggered,
            rule_name: self.rule_name.deep_view(),
        }
    }
}

impl DeepView for LogEvent {
    type V = EventView;

    open spec fn deep_view(&self) -> EventView {
        self@
    }
}

impl EventView {
    /// The flag says whether a rule name is present.
    pub open spec fn well_formed(self) -> bool {
        self.rule_triggered == self.rule_name.is_some()
    }

    /// A freshly made event: no tags, no rule.
    pub open spec fn fresh(
        id: u128,
        timestamp: Timestamp,
        severity: Severity,
        kind: EventKind,
        hostname: Seq<char>,
    ) -> EventView {
        EventView {
            id,
            timestamp,
            severity,
            kind,
            hostname,
            tags: Seq::empty(),
            rule_triggered: false,
            rule_name: None,
        }
    }

    /// The event with one more tag at the end.
    pub open spec fn tagged(self, tag: Seq<char>) -> EventView {
        EventView { tags: self.tags.push(tag), ..self }
    }

    /// The event marked as having triggered the rule `name`.
    pub open spec fn ruled(self, name: Seq<char>) -> EventView {
        EventView { rule_triggered: true, rule_name: Some(name), ..self }
    }
}

/// `id` has the version and variant bits of a random (version 4) UUID.
pub open spec fn is_random_uuid(id: u128) -> bool {
    id & 0x0000_0000_0000_f000_c000_0000_0000_0000 == 0x0000_0000_0000_4000_8000_0000_0000_0000
}

/// Calls `uuid::Uuid::new_v4` and hands out the identifier's 128-bit value
/// (`Uuid::as_u128`). Trusted: whatever the random source gave, the version
/// bits are set to 4 and the variant bits to `10`, which is what `new_v4`
/// masks into the number it drew.
#[verifier::external_body]
pub(crate) fn fresh_event_id() -> (id: u128)
    ensures
        is_random_uuid(id),
{
    uuid::Uuid::new_v4().as_u128()
}

/// Calls `chrono::Utc::now` and hands out the time as `DateTime::timestamp`
/// and `DateTime::timestamp_subsec_nanos` give it. Trusted: the clock's
/// reading is not before 1970 and its sub-second part is below one second,
/// since `now` builds the value from a `Duration` since the Unix epoch.
#[verifier::external_body]
pub(crate) fn current_time() -> (now: Timestamp)
    ensures
        now.secs >= 0,
        now.nanos < 1_000_000_000,
{
    let now = chrono::Utc::now();
    Timestamp { secs: now.timestamp(), nanos: now.timestamp_subsec_nanos() }
}

impl LogEvent {
    /// Makes an event with the given identifier and creation time, no tags
    /// and no rule.
    pub fn new_with(
        id: u128,
        timestamp: Timestamp,
        severity: Severity,
        event_type: EventType,
        hostname: String,
    ) -> (event: LogEvent)
        ensures
            event@ == EventView::fresh(id, timestamp, severity, event_type@, hostname@),
            event@.well_formed(),
    {
        let event = LogEvent {
            id,
            timestamp,
            severity,
            event_type,
            hostname,
            tags: Vec::new(),
            rule_triggered: false,
            rule_name: None,
        };
        assert(event.tags.deep_view() =~= Seq::<Seq<char>>::empty());
        event
    }

    /// Makes an event with a fresh random identifier and the current time, no
    /// tags and no rule.
    pub fn new(severity: Severity, event_type: EventType, hostname: String) -> (event: LogEvent)
        ensures
            event@ == EventView::fresh(
                event.id,
                event.timestamp,
                severity,
                event_type@,
                hostname@,
            ),
            event@.well_formed(),
            is_random_uuid(event.id),
            event.timestamp.secs >= 0,
            event.timestamp.nanos < 1_000_000_000,
    {
        let id: u128 = fresh_event_id();
        let timestamp = current_time();
        LogEvent::new_with(id, timestamp, severity, event_type, hostname)
    }

    /// Appends a tag. Nothing else changes.
    pub fn with_tag(self, tag: &str) -> (event: LogEvent)
        ensures
            event@ == self@.tagged(tag@),
            event@.well_formed() == self@.well_formed(),
    {
        let mut event = self;
        let ghost before = event.tags.deep_view();
        event.tags.push(tag.to_owned());
        assert(event.tags.deep_view() =~= before.push(tag@));
        event
    }

    /// Marks the event as having triggered the rule `rule_name`, replacing
    /// any earlier rule name. Nothing else changes.
    pub fn with_rule(self, rule_name: &str) -> (event: LogEvent)
        ensures
            event@ == self@.ruled(rule_name@),
            event@.well_formed(),
    {
        let mut event = self;
        event.rule_triggered = true;
        event.rule_name = Some(rule_name.to_owned());
        event
    }
}

} // verus!
