//! From an event to the entries of one line.

use crate::event::{EventKind, EventType, EventView, LogEvent};
use crate::wire::field::Field;
use crate::wire::value::{
    operation_name, operation_text, severity_name, severity_text, tag_name, tag_of, tag_text, Entry,
    KindTag, Value, WireField, WireValue,
};
use vstd::prelude::*;

verus! {

/// The wire value of a text that may be absent: `null` stands for absence.
pub open spec fn optional_text(text: Option<Seq<char>>) -> Value {
    match text {
        Some(text) => Value::Text(text),
        None => Value::Null,
    }
}

/// The entries that are particular to a kind of observation, in wire order.
pub open spec fn wire_of_kind(kind: EventKind) -> Seq<Entry> {
    match kind {
        EventKind::FileIntegrity { path, operation, hash } => seq![
            Entry { field: Field::Path, value: Value::Text(path) },
            Entry { field: Field::Operation, value: Value::Text(operation_name(operation)) },
            Entry { field: Field::Hash, value: optional_text(hash) },
        ],
        EventKind::NetworkSocket { local_addr, remote_addr, protocol, state } => seq![
            Entry { field: Field::LocalAddr, value: Value::Text(local_addr) },
            Entry { field: Field::RemoteAddr, value: optional_text(remote_addr) },
            Entry { field: Field::Protocol, value: Value::Text(protocol) },
            Entry { field: Field::State, value: Value::Text(state) },
        ],
        EventKind::SystemLog { source, level, message } => seq![
            Entry { field: Field::Source, value: Value::Text(source) },
            Entry { field: Field::Level, value: Value::Text(level) },
            Entry { field: Field::Message, value: Value::Text(message) },
        ],
        EventKind::ProcessMonitor { pid, name, cpu_usage, memory_usage } => seq![
            Entry { field: Field::Pid, value: Value::Unsigned(pid as u64) },
            Entry { field: Field::Name, value: Value::Text(name) },
            Entry { field: Field::CpuUsage, value: Value::Single(cpu_usage) },
            Entry { field: Field::MemoryUsage, value: Value::Unsigned(memory_usage) },
        ],
    }
}

/// The entries of one line of the event stream, in wire order: identifier,
/// time, severity, the kind's discriminant with the kind's own entries at
/// the same level, host name, tags, rule flag and rule name.
pub open spec fn wire_of(event: EventView) -> Seq<Entry> {
    seq![
        Entry { field: Field::Id, value: Value::Uuid(event.id) },
        Entry { field: Field::Timestamp, value: Value::Time(event.timestamp) },
        Entry { field: Field::Severity, value: Value::Text(severity_name(event.severity)) },
    ] + wire_of_observation(event.kind) + seq![
        Entry { field: Field::Hostname, value: Value::Text(event.hostname) },
        Entry { field: Field::Tags, value: Value::TextList(event.tags) },
        Entry { field: Field::RuleTriggered, value: Value::Bool(event.rule_triggered) },
        Entry { field: Field::RuleName, value: optional_text(event.rule_name) },
    ]
}

fn text_value(text: &String) -> (value: WireValue)
    ensures
        value@ == Value::Text(text@),
{
    WireValue::Text(text.clone())
}

fn optional_text_value(text: &Option<String>) -> (value: WireValue)
    ensures
        value@ == optional_text(text.deep_view()),
{
    match text {
        Some(text) => WireValue::Text(text.clone()),
        None => WireValue::Null,
    }
}

/// Copies a list of texts.
pub(crate) fn copy_texts(texts: &Vec<String>) -> (copy: Vec<String>)
    ensures
        copy.deep_view() == texts.deep_view(),
{
    let mut copy: Vec<String> = Vec::new();
    let mut i: usize = 0;
    while i < texts.len()
        invariant
            i <= texts.len(),
            copy.deep_view() =~= texts.deep_view().take(i as int),
        decreases texts.len() - i,
    {
        let ghost before = copy.deep_view();
        copy.push(texts[i].clone());
        assert(copy.deep_view() =~= before.push(texts.deep_view()[i as int]));
        i += 1;
    }
    assert(texts.deep_view().take(i as int) =~= texts.deep_view());
    copy
}

fn text_list_value(texts: &Vec<String>) -> (value: WireValue)
    ensures
        value@ == Value::TextList(texts.deep_view()),
{
    WireValue::TextList(copy_texts(texts))
}

fn push_entry(entries: &mut Vec<WireField>, field: Field, value: WireValue)
    ensures
        final(entries).deep_view() == old(entries).deep_view().push(Entry { field, value: value@ }),
{
    let ghost before = entries.deep_view();
    entries.push(WireField { field, value });
    assert(entries.deep_view() =~= before.push(Entry { field, value: value@ }));
}

/// The discriminant of a kind of observation followed by the kind's own
/// entries, in wire order.
pub open spec fn wire_of_observation(kind: EventKind) -> Seq<Entry> {
    seq![Entry { field: Field::Type, value: Value::Text(tag_name(tag_of(kind))) }] + wire_of_kind(
        kind,
    )
}

impl EventType {
    /// Lays the observation out as entries: the discriminant, then the
    /// kind's own entries.
    pub fn to_wire(&self) -> (entries: Vec<WireField>)
        ensures
            entries.deep_view() == wire_of_observation(self@),
    {
        let mut entries: Vec<WireField> = Vec::new();
        assert(entries.deep_view() =~= Seq::<Entry>::empty());
        self.append_to(&mut entries);
        assert(entries.deep_view() =~= wire_of_observation(self@));
        entries
    }

    /// Appends the entries of the observation to a list.
    fn append_to(&self, entries: &mut Vec<WireField>)
        ensures
            final(entries).deep_view() == old(entries).deep_view() + wire_of_observation(self@),
    {
        match self {
            EventType::FileIntegrity { path, operation, hash } => {
                push_entry(
                    entries,
                    Field::Type,
                    WireValue::Text(tag_text(KindTag::FileIntegrity).to_owned()),
                );
                push_entry(entries, Field::Path, text_value(path));
                push_entry(
                    entries,
                    Field::Operation,
                    WireValue::Text(operation_text(*operation).to_owned()),
                );
                push_entry(entries, Field::Hash, optional_text_value(hash));
            },
            EventType::NetworkSocket { local_addr, remote_addr, protocol, state } => {
                push_entry(
                    entries,
                    Field::Type,
                    WireValue::Text(tag_text(KindTag::NetworkSocket).to_owned()),
                );
                push_entry(entries, Field::LocalAddr, text_value(local_addr));
                push_entry(entries, Field::RemoteAddr, optional_text_value(remote_addr));
                push_entry(entries, Field::Protocol, text_value(protocol));
                push_entry(entries, Field::State, text_value(state));
            },
            EventType::SystemLog { source, level, message } => {
                push_entry(
                    entries,
                    Field::Type,
                    WireValue::Text(tag_text(KindTag::SystemLog).to_owned()),
                );
                push_entry(entries, Field::Source, text_value(source));
                push_entry(entries, Field::Level, text_value(level));
                push_entry(entries, Field::Message, text_value(message));
            },
            EventType::ProcessMonitor { pid, name, cpu_usage, memory_usage } => {
                push_entry(
                    entries,
                    Field::Type,
                    WireValue::Text(tag_text(KindTag::ProcessMonitor).to_owned()),
                );
                push_entry(entries, Field::Pid, WireValue::Unsigned(*pid as u64));
                push_entry(entries, Field::Name, text_value(name));
                push_entry(entries, Field::CpuUsage, WireValue::Single(*cpu_usage));
                push_entry(entries, Field::MemoryUsage, WireValue::Unsigned(*memory_usage));
            },
        }
        assert(entries.deep_view() =~= old(entries).deep_view() + wire_of_observation(self@));
    }
}

impl LogEvent {
    /// Lays the event out as the entries of one line of the event stream.
    pub fn to_wire(&self) -> (entries: Vec<WireField>)
        ensures
            entries.deep_view() == wire_of(self@),
    {
        let mut entries: Vec<WireField> = Vec::new();
        assert(entries.deep_view() =~= Seq::<Entry>::empty());
        push_entry(&mut entries, Field::Id, WireValue::Uuid(self.id));
        push_entry(&mut entries, Field::Timestamp, WireValue::Time(self.timestamp));
        push_entry(
            &mut entries,
            Field::Severity,
            WireValue::Text(severity_text(self.severity).to_owned()),
        );
        self.event_type.append_to(&mut entries);
        push_entry(&mut entries, Field::Hostname, text_value(&self.hostname));
        push_entry(&mut entries, Field::Tags, text_list_value(&self.tags));
        push_entry(&mut entries, Field::RuleTriggered, WireValue::Bool(self.rule_triggered));
        push_entry(&mut entries, Field::RuleName, optional_text_value(&self.rule_name));
        assert(entries.deep_view() =~= wire_of(self@));
        entries
    }
}

} // verus!
