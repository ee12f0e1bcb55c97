//! From the entries of one line to an event, or to what is wrong with them.

use crate::event::{EventKind, EventType, EventView, FileOperation, LogEvent, Timestamp};
use crate::severity::Severity;
use crate::wire::encode::copy_texts;
use crate::wire::field::Field;
use crate::wire::value::{
    operation_named, parse_operation, parse_severity, parse_tag, severity_named, shape_of,
    tag_named, Entry, KindTag, Value, WireField, WireValue,
};
use vstd::prelude::*;
use vstd::string::StringExecFns;

verus! {

/// Why a list of entries is not an event.
#[derive(Debug, Clone, Copy, PartialEq, Eq, Structural, Hash)]
pub enum WireError {
    /// A field that every event has is not there.
    Missing(Field),
    /// A field is there more than once.
    Duplicate(Field),
    /// A field holds a value that it cannot have, or that it cannot have
    /// beside the values of the other fields.
    Invalid(Field),
}

/// How often a field occurs among the entries.
pub ghost enum Presence {
    Absent,
    Once(Value),
    Repeated,
}

/// Entry `i` is for the field.
pub open spec fn occurs(entries: Seq<Entry>, field: Field, i: int) -> bool {
    0 <= i < entries.len() && entries[i].field == field
}

/// Whether the field occurs not at all, once (and with which value) or more
/// than once.
pub open spec fn presence(entries: Seq<Entry>, field: Field) -> Presence {
    if !exists|i: int| occurs(entries, field, i) {
        Presence::Absent
    } else if exists|i: int, j: int|
        i < j && occurs(entries, field, i) && occurs(entries, field, j) {
        Presence::Repeated
    } else {
        Presence::Once(entries[choose|i: int| occurs(entries, field, i)].value)
    }
}

/// The fields that an event need not have: a text that may be absent, the
/// tags (none by default) and the rule flag (`false` by default).
pub open spec fn is_optional(field: Field) -> bool {
    match field {
        Field::Hash | Field::RemoteAddr | Field::RuleName => true,
        Field::Tags | Field::RuleTriggered => true,
        _ => false,
    }
}

/// The values that a field can have.
pub open spec fn accepts(field: Field, value: Value) -> bool {
    match field {
        Field::Id => value is Uuid,
        Field::Timestamp => value is Time,
        Field::Severity => value matches Value::Text(text) && severity_named(text) is Some,
        Field::Type => value matches Value::Text(text) && tag_named(text) is Some,
        Field::Operation => value matches Value::Text(text) && operation_named(text) is Some,
        Field::Hash | Field::RemoteAddr | Field::RuleName => value is Text || value is Null,
        Field::Pid => value matches Value::Unsigned(number) && number <= u32::MAX,
        Field::MemoryUsage => value is Unsigned,
        Field::CpuUsage => value is Single,
        Field::Tags => value is TextList,
        Field::RuleTriggered => value is Bool,
        _ => value is Text,
    }
}

/// What is wrong with the field among the entries, if anything.
pub open spec fn fault(entries: Seq<Entry>, field: Field) -> Option<WireError> {
    match presence(entries, field) {
        Presence::Absent => if is_optional(field) {
            None
        } else {
            Some(WireError::Missing(field))
        },
        Presence::Repeated => Some(WireError::Duplicate(field)),
        Presence::Once(value) => if accepts(field, value) {
            None
        } else {
            Some(WireError::Invalid(field))
        },
    }
}

/// The value of the field; `null` when it does not occur exactly once.
pub open spec fn value_of(entries: Seq<Entry>, field: Field) -> Value {
    match presence(entries, field) {
        Presence::Once(value) => value,
        _ => Value::Null,
    }
}

/// The kind that the entries declare under `type`.
pub open spec fn declared_tag(entries: Seq<Entry>) -> Option<KindTag> {
    match value_of(entries, Field::Type) {
        Value::Text(text) => tag_named(text),
        _ => None,
    }
}

/// The fields of a kind of observation, in wire order.
pub open spec fn kind_fields(tag: KindTag) -> Seq<Field> {
    match tag {
        KindTag::FileIntegrity => seq![Field::Path, Field::Operation, Field::Hash],
        KindTag::NetworkSocket => seq![
            Field::LocalAddr,
            Field::RemoteAddr,
            Field::Protocol,
            Field::State,
        ],
        KindTag::SystemLog => seq![Field::Source, Field::Level, Field::Message],
        KindTag::ProcessMonitor => seq![
            Field::Pid,
            Field::Name,
            Field::CpuUsage,
            Field::MemoryUsage,
        ],
    }
}

/// The fields that are read from the entries, in the order in which they are
/// checked: those of every event, with those of the declared kind after the
/// discriminant. Entries for other fields are ignored.
pub open spec fn schema(tag: Option<KindTag>) -> Seq<Field> {
    seq![Field::Id, Field::Timestamp, Field::Severity, Field::Type] + match tag {
        Some(tag) => kind_fields(tag),
        None => Seq::empty(),
    } + seq![Field::Hostname, Field::Tags, Field::RuleTriggered, Field::RuleName]
}

/// Field `i` of the list has a fault and none before it has one.
pub open spec fn is_first_fault(entries: Seq<Entry>, fields: Seq<Field>, i: int) -> bool {
    &&& 0 <= i < fields.len()
    &&& fault(entries, fields[i]) is Some
    &&& forall|j: int| 0 <= j < i ==> fault(entries, #[trigger] fields[j]) is None
}

/// The fault of the first field of the list that has one.
pub open spec fn first_fault(entries: Seq<Entry>, fields: Seq<Field>) -> Option<WireError> {
    if exists|i: int| is_first_fault(entries, fields, i) {
        fault(entries, fields[choose|i: int| is_first_fault(entries, fields, i)])
    } else {
        None
    }
}

/// The text of the field; empty when the field holds none.
pub open spec fn text_of(entries: Seq<Entry>, field: Field) -> Seq<char> {
    match value_of(entries, field) {
        Value::Text(text) => text,
        _ => Seq::empty(),
    }
}

/// The text of a field that may be absent or `null`.
pub open spec fn optional_text_of(entries: Seq<Entry>, field: Field) -> Option<Seq<char>> {
    match value_of(entries, field) {
        Value::Text(text) => Some(text),
        _ => None,
    }
}

/// The number of the field; zero when the field holds none.
pub open spec fn unsigned_of(entries: Seq<Entry>, field: Field) -> u64 {
    match value_of(entries, field) {
        Value::Unsigned(number) => number,
        _ => 0,
    }
}

/// The observation that the entries describe, for the kind they declare.
pub open spec fn decoded_kind(entries: Seq<Entry>, tag: KindTag) -> EventKind {
    match tag {
        KindTag::FileIntegrity => EventKind::FileIntegrity {
            path: text_of(entries, Field::Path),
            operation: match operation_named(text_of(entries, Field::Operation)) {
                Some(operation) => operation,
                None => FileOperation::Create,
            },
            hash: optional_text_of(entries, Field::Hash),
        },
        KindTag::NetworkSocket => EventKind::NetworkSocket {
            local_addr: text_of(entries, Field::LocalAddr),
            remote_addr: optional_text_of(entries, Field::RemoteAddr),
            protocol: text_of(entries, Field::Protocol),
            state: text_of(entries, Field::State),
        },
        KindTag::SystemLog => EventKind::SystemLog {
            source: text_of(entries, Field::Source),
            level: text_of(entries, Field::Level),
            message: text_of(entries, Field::Message),
        },
        KindTag::ProcessMonitor => EventKind::ProcessMonitor {
            pid: if unsigned_of(entries, Field::Pid) <= u32::MAX {
                unsigned_of(entries, Field::Pid) as u32
            } else {
                0
            },
            name: text_of(entries, Field::Name),
            cpu_usage: match value_of(entries, Field::CpuUsage) {
                Value::Single(bits) => bits,
                _ => 0,
            },
            memory_usage: unsigned_of(entries, Field::MemoryUsage),
        },
    }
}

/// The event that entries without a fault describe. Tags that are absent are
/// no tags, a rule flag that is absent is `false`, a text that is absent or
/// `null` is no text.
pub open spec fn decoded(entries: Seq<Entry>, tag: KindTag) -> EventView {
    EventView {
        id: match value_of(entries, Field::Id) {
            Value::Uuid(id) => id,
            _ => 0,
        },
        timestamp: match value_of(entries, Field::Timestamp) {
            Value::Time(time) => time,
            _ => Timestamp { secs: 0, nanos: 0 },
        },
        severity: match severity_named(text_of(entries, Field::Severity)) {
            Some(severity) => severity,
            None => Severity::Info,
        },
        kind: decoded_kind(entries, tag),
        hostname: text_of(entries, Field::Hostname),
        tags: match value_of(entries, Field::Tags) {
            Value::TextList(tags) => tags,
            _ => Seq::empty(),
        },
        rule_triggered: match value_of(entries, Field::RuleTriggered) {
            Value::Bool(flag) => flag,
            _ => false,
        },
        rule_name: optional_text_of(entries, Field::RuleName),
    }
}

/// What a list of entries stands for: the event it describes, or the fault
/// of the first field, in the order of the schema, that has one. Entries
/// whose fields have no fault are still no event when the rule flag and the
/// rule name disagree: the flag is then the value out of place.
pub open spec fn event_of(entries: Seq<Entry>) -> Result<EventView, WireError> {
    match first_fault(entries, schema(declared_tag(entries))) {
        Some(error) => Err(error),
        None => match declared_tag(entries) {
            Some(tag) => if decoded(entries, tag).well_formed() {
                Ok(decoded(entries, tag))
            } else {
                Err(WireError::Invalid(Field::RuleTriggered))
            },
            None => Err(WireError::Invalid(Field::Type)),
        },
    }
}

/// Where a field was found among the entries.
enum Lookup {
    Absent,
    Once(usize),
    Repeated,
}

/// Looks for the entries of a field.
fn find(entries: &Vec<WireField>, field: Field) -> (lookup: Lookup)
    ensures
        match lookup {
            Lookup::Absent => presence(entries.deep_view(), field) is Absent,
            Lookup::Repeated => presence(entries.deep_view(), field) is Repeated,
            Lookup::Once(i) => i < entries.len() && entries[i as int].field == field && presence(
                entries.deep_view(),
                field,
            ) == Presence::Once(entries[i as int].value@),
        },
{
    let ghost all = entries.deep_view();
    let mut first: Option<usize> = None;
    let mut i: usize = 0;
    while i < entries.len()
        invariant
            i <= entries.len(),
            all == entries.deep_view(),
            match first {
                None => forall|k: int| 0 <= k < i ==> !occurs(all, field, k),
                Some(at) => at < i && occurs(all, field, at as int) && forall|k: int|
                    0 <= k < i && k != at ==> !occurs(all, field, k),
            },
        decreases entries.len() - i,
    {
        if entries[i].field == field {
            match first {
                Some(at) => {
                    assert(occurs(all, field, at as int) && occurs(all, field, i as int));
                    return Lookup::Repeated;
                },
                None => {
                    first = Some(i);
                },
            }
        }
        i += 1;
    }
    match first {
        None => Lookup::Absent,
        Some(at) => {
            assert(occurs(all, field, at as int));
            let ghost chosen = choose|k: int| occurs(all, field, k);
            assert(chosen == at);
            Lookup::Once(at)
        },
    }
}

/// Tests whether a field can have a value.
fn accepts_value(field: Field, value: &WireValue) -> (accepted: bool)
    ensures
        accepted == accepts(field, value@),
{
    match field {
        Field::Id => matches!(value, WireValue::Uuid(_)),
        Field::Timestamp => matches!(value, WireValue::Time(_)),
        Field::Severity => match value {
            WireValue::Text(text) => parse_severity(text.as_str()).is_some(),
            _ => false,
        },
        Field::Type => match value {
            WireValue::Text(text) => parse_tag(text.as_str()).is_some(),
            _ => false,
        },
        Field::Operation => match value {
            WireValue::Text(text) => parse_operation(text.as_str()).is_some(),
            _ => false,
        },
        Field::Hash | Field::RemoteAddr | Field::RuleName => matches!(
            value,
            WireValue::Text(_) | WireValue::Null
        ),
        Field::Pid => match value {
            WireValue::Unsigned(number) => *number <= 0xffff_ffff,
            _ => false,
        },
        Field::MemoryUsage => matches!(value, WireValue::Unsigned(_)),
        Field::CpuUsage => matches!(value, WireValue::Single(_)),
        Field::Tags => matches!(value, WireValue::TextList(_)),
        Field::RuleTriggered => matches!(value, WireValue::Bool(_)),
        _ => matches!(value, WireValue::Text(_)),
    }
}

/// Tells whether an event need not have the field.
fn optional(field: Field) -> (yes: bool)
    ensures
        yes == is_optional(field),
{
    match field {
        Field::Hash | Field::RemoteAddr | Field::RuleName => true,
        Field::Tags | Field::RuleTriggered => true,
        _ => false,
    }
}

/// Finds what is wrong with a field among the entries, if anything.
pub fn check_field(entries: &Vec<WireField>, field: Field) -> (error: Option<WireError>)
    ensures
        error == fault(entries.deep_view(), field),
{
    match find(entries, field) {
        Lookup::Absent => if optional(field) {
            None
        } else {
            Some(WireError::Missing(field))
        },
        Lookup::Repeated => Some(WireError::Duplicate(field)),
        Lookup::Once(i) => if accepts_value(field, &entries[i].value) {
            None
        } else {
            Some(WireError::Invalid(field))
        },
    }
}

/// Lists the fields that are read for a declared kind, in checking order.
fn schema_for(tag: Option<KindTag>) -> (fields: Vec<Field>)
    ensures
        fields@ == schema(tag),
{
    let mut fields: Vec<Field> = Vec::new();
    fields.push(Field::Id);
    fields.push(Field::Timestamp);
    fields.push(Field::Severity);
    fields.push(Field::Type);
    match tag {
        Some(KindTag::FileIntegrity) => {
            fields.push(Field::Path);
            fields.push(Field::Operation);
            fields.push(Field::Hash);
        },
        Some(KindTag::NetworkSocket) => {
            fields.push(Field::LocalAddr);
            fields.push(Field::RemoteAddr);
            fields.push(Field::Protocol);
            fields.push(Field::State);
        },
        Some(KindTag::SystemLog) => {
            fields.push(Field::Source);
            fields.push(Field::Level);
            fields.push(Field::Message);
        },
        Some(KindTag::ProcessMonitor) => {
            fields.push(Field::Pid);
            fields.push(Field::Name);
            fields.push(Field::CpuUsage);
            fields.push(Field::MemoryUsage);
        },
        None => {},
    }
    fields.push(Field::Hostname);
    fields.push(Field::Tags);
    fields.push(Field::RuleTriggered);
    fields.push(Field::RuleName);
    assert(fields@ =~= schema(tag));
    fields
}

/// At most one field is the first with a fault.
pub proof fn lemma_first_fault_unique(entries: Seq<Entry>, fields: Seq<Field>, i: int, j: int)
    requires
        is_first_fault(entries, fields, i),
        is_first_fault(entries, fields, j),
    ensures
        i == j,
{
    if i < j {
        assert(fault(entries, fields[i]) is None);
    } else if j < i {
        assert(fault(entries, fields[j]) is None);
    }
}

/// Checks the fields of a list in order and returns the first fault.
fn first_fault_in(entries: &Vec<WireField>, fields: &Vec<Field>) -> (error: Option<WireError>)
    ensures
        error == first_fault(entries.deep_view(), fields@),
        error is None ==> forall|i: int|
            0 <= i < fields@.len() ==> fault(entries.deep_view(), #[trigger] fields@[i]) is None,
{
    let ghost all = entries.deep_view();
    let mut i: usize = 0;
    while i < fields.len()
        invariant
            i <= fields.len(),
            all == entries.deep_view(),
            forall|j: int| 0 <= j < i ==> fault(all, #[trigger] fields@[j]) is None,
        decreases fields.len() - i,
    {
        let error = check_field(entries, fields[i]);
        if error.is_some() {
            proof {
                assert(is_first_fault(all, fields@, i as int));
                let chosen = choose|k: int| is_first_fault(all, fields@, k);
                lemma_first_fault_unique(all, fields@, i as int, chosen);
            }
            return error;
        }
        i += 1;
    }
    assert(!exists|k: int| is_first_fault(all, fields@, k));
    None
}

/// Reads the value of a field that occurs once.
fn value_at(entries: &Vec<WireField>, field: Field) -> (value: Option<&WireValue>)
    ensures
        match value {
            Some(value) => value@ == value_of(entries.deep_view(), field) && presence(
                entries.deep_view(),
                field,
            ) is Once,
            None => value_of(entries.deep_view(), field) == Value::Null,
        },
{
    match find(entries, field) {
        Lookup::Once(i) => Some(&entries[i].value),
        _ => None,
    }
}

fn text_at(entries: &Vec<WireField>, field: Field) -> (text: String)
    ensures
        text@ == text_of(entries.deep_view(), field),
{
    match value_at(entries, field) {
        Some(WireValue::Text(text)) => text.clone(),
        _ => String::new(),
    }
}

fn optional_text_at(entries: &Vec<WireField>, field: Field) -> (text: Option<String>)
    ensures
        text.deep_view() == optional_text_of(entries.deep_view(), field),
{
    match value_at(entries, field) {
        Some(WireValue::Text(text)) => Some(text.clone()),
        _ => None,
    }
}

fn unsigned_at(entries: &Vec<WireField>, field: Field) -> (number: u64)
    ensures
        number == unsigned_of(entries.deep_view(), field),
{
    match value_at(entries, field) {
        Some(WireValue::Unsigned(number)) => *number,
        _ => 0,
    }
}

fn tag_at(entries: &Vec<WireField>) -> (tag: Option<KindTag>)
    ensures
        tag == declared_tag(entries.deep_view()),
{
    match value_at(entries, Field::Type) {
        Some(WireValue::Text(text)) => parse_tag(text.as_str()),
        _ => None,
    }
}

fn kind_at(entries: &Vec<WireField>, tag: KindTag) -> (kind: EventType)
    ensures
        kind@ == decoded_kind(entries.deep_view(), tag),
{
    match tag {
        KindTag::FileIntegrity => {
            let operation = match parse_operation(text_at(entries, Field::Operation).as_str()) {
                Some(operation) => operation,
                None => FileOperation::Create,
            };
            EventType::FileIntegrity {
                path: text_at(entries, Field::Path),
                operation,
                hash: optional_text_at(entries, Field::Hash),
            }
        },
        KindTag::NetworkSocket => EventType::NetworkSocket {
            local_addr: text_at(entries, Field::LocalAddr),
            remote_addr: optional_text_at(entries, Field::RemoteAddr),
            protocol: text_at(entries, Field::Protocol),
            state: text_at(entries, Field::State),
        },
        KindTag::SystemLog => EventType::SystemLog {
            source: text_at(entries, Field::Source),
            level: text_at(entries, Field::Level),
            message: text_at(entries, Field::Message),
        },
        KindTag::ProcessMonitor => {
            let wide: u64 = unsigned_at(entries, Field::Pid);
            let pid: u32 = if wide <= 0xffff_ffff {
                wide as u32
            } else {
                0
            };
            let cpu_usage: u32 = match value_at(entries, Field::CpuUsage) {
                Some(WireValue::Single(bits)) => *bits,
                _ => 0,
            };
            EventType::ProcessMonitor {
                pid,
                name: text_at(entries, Field::Name),
                cpu_usage,
                memory_usage: unsigned_at(entries, Field::MemoryUsage),
            }
        },
    }
}

fn event_at(entries: &Vec<WireField>, tag: KindTag) -> (event: LogEvent)
    ensures
        event@ == decoded(entries.deep_view(), tag),
{
    let id: u128 = match value_at(entries, Field::Id) {
        Some(WireValue::Uuid(id)) => *id,
        _ => 0,
    };
    let timestamp = match value_at(entries, Field::Timestamp) {
        Some(WireValue::Time(time)) => *time,
        _ => Timestamp { secs: 0, nanos: 0 },
    };
    let severity = match parse_severity(text_at(entries, Field::Severity).as_str()) {
        Some(severity) => severity,
        None => Severity::Info,
    };
    let tags: Vec<String> = match value_at(entries, Field::Tags) {
        Some(WireValue::TextList(tags)) => copy_texts(tags),
        _ => {
            let none: Vec<String> = Vec::new();
            assert(none.deep_view() =~= Seq::<Seq<char>>::empty());
            none
        },
    };
    let rule_triggered = match value_at(entries, Field::RuleTriggered) {
        Some(WireValue::Bool(flag)) => *flag,
        _ => false,
    };
    LogEvent {
        id,
        timestamp,
        severity,
        event_type: kind_at(entries, tag),
        hostname: text_at(entries, Field::Hostname),
        tags,
        rule_triggered,
        rule_name: optional_text_at(entries, Field::RuleName),
    }
}

impl LogEvent {
    /// Reads an event from the entries of one line of the event stream.
    ///
    /// The entries may come in any order. Entries for fields of another kind
    /// than the declared one are ignored. The fields are checked in the order
    /// of the schema, and the first fault found is the error. An event is
    /// read only where the rule flag is set exactly when a rule name is
    /// there; entries in which the two disagree are refused.
    pub fn from_wire(entries: &Vec<WireField>) -> (event: Result<LogEvent, WireError>)
        ensures
            match event {
                Ok(event) => event_of(entries.deep_view()) == Ok::<EventView, WireError>(event@),
                Err(error) => event_of(entries.deep_view()) == Err::<EventView, WireError>(error),
            },
            event matches Ok(event) ==> event@.well_formed(),
    {
        let tag = tag_at(entries);
        let fields = schema_for(tag);
        match first_fault_in(entries, &fields) {
            Some(error) => Err(error),
            None => match tag {
                Some(tag) => {
                    let event = event_at(entries, tag);
                    if event.rule_triggered == event.rule_name.is_some() {
                        Ok(event)
                    } else {
                        Err(WireError::Invalid(Field::RuleTriggered))
                    }
                },
                None => Err(WireError::Invalid(Field::Type)),
            },
        }
    }
}

/// A value that a field accepts has the field's shape, or is `null` under a
/// field whose text may be absent.
pub proof fn lemma_accepted_value_has_shape(field: Field, value: Value)
    requires
        accepts(field, value),
    ensures
        shape_of(value) == Some(field.wire_shape()) || (value is Null && is_optional(field)),
{
}

impl WireError {
    /// The field that the error is about.
    pub open spec fn field(self) -> Field {
        match self {
            WireError::Missing(field) => field,
            WireError::Duplicate(field) => field,
            WireError::Invalid(field) => field,
        }
    }

    /// A sentence that names the fault and the field.
    pub fn message(self) -> (text: String)
        ensures
            text@ == match self {
                WireError::Missing(_) => "missing field `"@,
                WireError::Duplicate(_) => "duplicate field `"@,
                WireError::Invalid(_) => "invalid value for field `"@,
            } + self.field().wire_name() + "`"@,
    {
        let (start, field) = match self {
            WireError::Missing(field) => ("missing field `", field),
            WireError::Duplicate(field) => ("duplicate field `", field),
            WireError::Invalid(field) => ("invalid value for field `", field),
        };
        String::from_str(start).concat(field.name()).concat("`")
    }
}

} // verus!
