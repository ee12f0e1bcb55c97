//! The values of the wire schema, and the words that it writes for
//! severities, file operations and kinds of observation.

use crate::event::{EventKind, FileOperation, Timestamp};
use crate::severity::Severity;
use crate::text::str_equals;
use crate::wire::field::{Field, Shape};
use vstd::prelude::*;

verus! {

/// A value on the wire. Identifiers, times and single-precision numbers are
/// held as the numbers they stand for; how they are written as text is not
/// this module's concern.
#[derive(Debug, Clone, PartialEq, Eq)]
pub enum WireValue {
    Null,
    Bool(bool),
    Unsigned(u64),
    /// The bit pattern of a single-precision number.
    Single(u32),
    /// The 128-bit value of a UUID.
    Uuid(u128),
    Time(Timestamp),
    Text(String),
    TextList(Vec<String>),
    /// A value of a shape that the field it stands under cannot have.
    Other,
}

/// Mathematical view of a [`WireValue`].
pub ghost enum Value {
    Null,
    Bool(bool),
    Unsigned(u64),
    Single(u32),
    Uuid(u128),
    Time(Timestamp),
    Text(Seq<char>),
    TextList(Seq<Seq<char>>),
    Other,
}

impl View for WireValue {
    type V = Value;

    open spec fn view(&self) -> Value {
        match *self {
            WireValue::Null => Value::Null,
            WireValue::Bool(flag) => Value::Bool(flag),
            WireValue::Unsigned(number) => Value::Unsigned(number),
            WireValue::Single(bits) => Value::Single(bits),
            WireValue::Uuid(id) => Value::Uuid(id),
            WireValue::Time(time) => Value::Time(time),
            WireValue::Text(text) => Value::Text(text@),
            WireValue::TextList(texts) => Value::TextList(texts.deep_view()),
            WireValue::Other => Value::Other,
        }
    }
}

/// One named value of a line.
#[derive(Debug, Clone, PartialEq, Eq)]
pub struct WireField {
    pub field: Field,
    pub value: WireValue,
}

/// Mathematical view of a [`WireField`].
pub ghost struct Entry {
    pub field: Field,
    pub value: Value,
}

impl View for WireField {
    type V = Entry;

    open spec fn view(&self) -> Entry {
        Entry { field: self.field, value: self.value@ }
    }
}

impl DeepView for WireField {
    type V = Entry;

    open spec fn deep_view(&self) -> Entry {
        self@
    }
}

/// The wire name of a severity: its name in upper case.
pub open spec fn severity_name(severity: Severity) -> Seq<char> {
    match severity {
        Severity::Info => "INFO"@,
        Severity::Low => "LOW"@,
        Severity::Medium => "MEDIUM"@,
        Severity::High => "HIGH"@,
        Severity::Critical => "CRITICAL"@,
    }
}

/// The wire name of a file operation: its name in lower case.
pub open spec fn operation_name(operation: FileOperation) -> Seq<char> {
    match operation {
        FileOperation::Create => "create"@,
        FileOperation::Modify => "modify"@,
        FileOperation::Delete => "delete"@,
        FileOperation::Rename => "rename"@,
        FileOperation::Chmod => "chmod"@,
    }
}

/// The four kinds of observation.
#[derive(Debug, Clone, Copy, PartialEq, Eq, Structural, Hash)]
pub enum KindTag {
    FileIntegrity,
    NetworkSocket,
    SystemLog,
    ProcessMonitor,
}

/// The discriminant that the wire carries under `type`.
pub open spec fn tag_name(tag: KindTag) -> Seq<char> {
    match tag {
        KindTag::FileIntegrity => "file_integrity"@,
        KindTag::NetworkSocket => "network_socket"@,
        KindTag::SystemLog => "system_log"@,
        KindTag::ProcessMonitor => "process_monitor"@,
    }
}

/// The kind of an observation.
pub open spec fn tag_of(kind: EventKind) -> KindTag {
    match kind {
        EventKind::FileIntegrity { .. } => KindTag::FileIntegrity,
        EventKind::NetworkSocket { .. } => KindTag::NetworkSocket,
        EventKind::SystemLog { .. } => KindTag::SystemLog,
        EventKind::ProcessMonitor { .. } => KindTag::ProcessMonitor,
    }
}

/// The severity with the given wire name, if there is one.
pub open spec fn severity_named(text: Seq<char>) -> Option<Severity> {
    if exists|severity: Severity| severity_name(severity) == text {
        Some(choose|severity: Severity| severity_name(severity) == text)
    } else {
        None
    }
}

/// The file operation with the given wire name, if there is one.
pub open spec fn operation_named(text: Seq<char>) -> Option<FileOperation> {
    if exists|operation: FileOperation| operation_name(operation) == text {
        Some(choose|operation: FileOperation| operation_name(operation) == text)
    } else {
        None
    }
}

/// The kind with the given discriminant, if there is one.
pub open spec fn tag_named(text: Seq<char>) -> Option<KindTag> {
    if exists|tag: KindTag| tag_name(tag) == text {
        Some(choose|tag: KindTag| tag_name(tag) == text)
    } else {
        None
    }
}

/// The wire names of severities, of file operations and of kinds each tell
/// their values apart.
pub proof fn lemma_value_names_differ()
    ensures
        forall|severity: Severity|
            severity_named(#[trigger] severity_name(severity)) == Some(severity),
        forall|operation: FileOperation|
            operation_named(#[trigger] operation_name(operation)) == Some(operation),
        forall|tag: KindTag| tag_named(#[trigger] tag_name(tag)) == Some(tag),
{
    reveal_strlit("INFO");
    reveal_strlit("LOW");
    reveal_strlit("MEDIUM");
    reveal_strlit("HIGH");
    reveal_strlit("CRITICAL");
    reveal_strlit("create");
    reveal_strlit("modify");
    reveal_strlit("delete");
    reveal_strlit("rename");
    reveal_strlit("chmod");
    reveal_strlit("file_integrity");
    reveal_strlit("network_socket");
    reveal_strlit("system_log");
    reveal_strlit("process_monitor");
    assert forall|a: Severity, b: Severity| severity_name(a) == severity_name(b) implies a == b by {
        assert(severity_name(a).len() == severity_name(b).len());
        assert(severity_name(a)[0] == severity_name(b)[0]);
    }
    assert forall|a: FileOperation, b: FileOperation|
        operation_name(a) == operation_name(b) implies a == b by {
        assert(operation_name(a)[0] == operation_name(b)[0]);
        assert(operation_name(a)[1] == operation_name(b)[1]);
    }
    assert forall|a: KindTag, b: KindTag| tag_name(a) == tag_name(b) implies a == b by {
        assert(tag_name(a)[0] == tag_name(b)[0]);
    }
}

/// The shape of a value; `null` and values out of place have none.
pub open spec fn shape_of(value: Value) -> Option<Shape> {
    match value {
        Value::Uuid(_) => Some(Shape::Uuid),
        Value::Time(_) => Some(Shape::Time),
        Value::Unsigned(_) => Some(Shape::Unsigned),
        Value::Single(_) => Some(Shape::Single),
        Value::Text(_) => Some(Shape::Text),
        Value::TextList(_) => Some(Shape::TextList),
        Value::Bool(_) => Some(Shape::Bool),
        Value::Null | Value::Other => None,
    }
}

/// Gives the wire name of a severity.
pub fn severity_text(severity: Severity) -> (text: &'static str)
    ensures
        text@ == severity_name(severity),
{
    match severity {
        Severity::Info => "INFO",
        Severity::Low => "LOW",
        Severity::Medium => "MEDIUM",
        Severity::High => "HIGH",
        Severity::Critical => "CRITICAL",
    }
}

/// Gives the wire name of a file operation.
pub fn operation_text(operation: FileOperation) -> (text: &'static str)
    ensures
        text@ == operation_name(operation),
{
    match operation {
        FileOperation::Create => "create",
        FileOperation::Modify => "modify",
        FileOperation::Delete => "delete",
        FileOperation::Rename => "rename",
        FileOperation::Chmod => "chmod",
    }
}

/// Gives the discriminant of a kind.
pub fn tag_text(tag: KindTag) -> (text: &'static str)
    ensures
        text@ == tag_name(tag),
{
    match tag {
        KindTag::FileIntegrity => "file_integrity",
        KindTag::NetworkSocket => "network_socket",
        KindTag::SystemLog => "system_log",
        KindTag::ProcessMonitor => "process_monitor",
    }
}

/// Finds the severity with the given wire name.
pub fn parse_severity(text: &str) -> (severity: Option<Severity>)
    ensures
        severity == severity_named(text@),
{
    proof {
        lemma_value_names_differ();
    }
    let found = if str_equals(text, "INFO") {
        Some(Severity::Info)
    } else if str_equals(text, "LOW") {
        Some(Severity::Low)
    } else if str_equals(text, "MEDIUM") {
        Some(Severity::Medium)
    } else if str_equals(text, "HIGH") {
        Some(Severity::High)
    } else if str_equals(text, "CRITICAL") {
        Some(Severity::Critical)
    } else {
        None
    };
    assert(found matches Some(severity) ==> severity_name(severity) == text@);
    found
}

/// Finds the file operation with the given wire name.
pub fn parse_operation(text: &str) -> (operation: Option<FileOperation>)
    ensures
        operation == operation_named(text@),
{
    proof {
        lemma_value_names_differ();
    }
    let found = if str_equals(text, "create") {
        Some(FileOperation::Create)
    } else if str_equals(text, "modify") {
        Some(FileOperation::Modify)
    } else if str_equals(text, "delete") {
        Some(FileOperation::Delete)
    } else if str_equals(text, "rename") {
        Some(FileOperation::Rename)
    } else if str_equals(text, "chmod") {
        Some(FileOperation::Chmod)
    } else {
        None
    };
    assert(found matches Some(operation) ==> operation_name(operation) == text@);
    found
}

/// Finds the kind with the given discriminant.
pub fn parse_tag(text: &str) -> (tag: Option<KindTag>)
    ensures
        tag == tag_named(text@),
{
    proof {
        lemma_value_names_differ();
    }
    let found = if str_equals(text, "file_integrity") {
        Some(KindTag::FileIntegrity)
    } else if str_equals(text, "network_socket") {
        Some(KindTag::NetworkSocket)
    } else if str_equals(text, "system_log") {
        Some(KindTag::SystemLog)
    } else if str_equals(text, "process_monitor") {
        Some(KindTag::ProcessMonitor)
    } else {
        None
    };
    assert(found matches Some(tag) ==> tag_name(tag) == text@);
    found
}

} // verus!
