//! Writing an event and reading it back gives the event again.

use crate::event::{EventKind, EventView};
use crate::wire::decode::{
    decoded, declared_tag, event_of, fault, is_first_fault, occurs, presence, schema, value_of,
    Presence, WireError,
};
use crate::wire::encode::{optional_text, wire_of};
use crate::wire::field::Field;
use crate::wire::value::{
    lemma_value_names_differ, operation_name, severity_name, tag_name, tag_of, Entry, Value,
};
use vstd::prelude::*;

verus! {

/// A field that occurs at one place only is present once, with the value
/// that stands there.
pub proof fn lemma_present_once(entries: Seq<Entry>, field: Field, i: int)
    requires
        occurs(entries, field, i),
        forall|j: int| j != i ==> !occurs(entries, field, j),
    ensures
        presence(entries, field) == Presence::Once(entries[i].value),
        value_of(entries, field) == entries[i].value,
{
    let chosen = choose|k: int| occurs(entries, field, k);
    assert(chosen == i);
}

/// The field stands once among the entries, with the given value.
pub open spec fn stands(entries: Seq<Entry>, field: Field, value: Value) -> bool {
    presence(entries, field) == Presence::Once(value)
}

/// The entries hold, once each and in any order, the fields of the event's
/// kind with the event's values. Entries for other fields may stand among
/// them.
pub open spec fn describes(entries: Seq<Entry>, event: EventView) -> bool {
    &&& stands(entries, Field::Id, Value::Uuid(event.id))
    &&& stands(entries, Field::Timestamp, Value::Time(event.timestamp))
    &&& stands(entries, Field::Severity, Value::Text(severity_name(event.severity)))
    &&& stands(entries, Field::Type, Value::Text(tag_name(tag_of(event.kind))))
    &&& stands(entries, Field::Hostname, Value::Text(event.hostname))
    &&& stands(entries, Field::Tags, Value::TextList(event.tags))
    &&& stands(entries, Field::RuleTriggered, Value::Bool(event.rule_triggered))
    &&& stands(entries, Field::RuleName, optional_text(event.rule_name))
    &&& match event.kind {
        EventKind::FileIntegrity { path, operation, hash } => {
            &&& stands(entries, Field::Path, Value::Text(path))
            &&& stands(entries, Field::Operation, Value::Text(operation_name(operation)))
            &&& stands(entries, Field::Hash, optional_text(hash))
        },
        EventKind::NetworkSocket { local_addr, remote_addr, protocol, state } => {
            &&& stands(entries, Field::LocalAddr, Value::Text(local_addr))
            &&& stands(entries, Field::RemoteAddr, optional_text(remote_addr))
            &&& stands(entries, Field::Protocol, Value::Text(protocol))
            &&& stands(entries, Field::State, Value::Text(state))
        },
        EventKind::SystemLog { source, level, message } => {
            &&& stands(entries, Field::Source, Value::Text(source))
            &&& stands(entries, Field::Level, Value::Text(level))
            &&& stands(entries, Field::Message, Value::Text(message))
        },
        EventKind::ProcessMonitor { pid, name, cpu_usage, memory_usage } => {
            &&& stands(entries, Field::Pid, Value::Unsigned(pid as u64))
            &&& stands(entries, Field::Name, Value::Text(name))
            &&& stands(entries, Field::CpuUsage, Value::Single(cpu_usage))
            &&& stands(entries, Field::MemoryUsage, Value::Unsigned(memory_usage))
        },
    }
}

/// Entry `i` is the only one for its field.
proof fn lemma_stands_at(entries: Seq<Entry>, i: int)
    requires
        0 <= i < entries.len(),
        forall|j: int| 0 <= j < entries.len() && j != i ==> (#[trigger] entries[j]).field
            != entries[i].field,
    ensures
        stands(entries, entries[i].field, entries[i].value),
{
    assert(occurs(entries, entries[i].field, i));
    lemma_present_once(entries, entries[i].field, i);
}

/// The entries of an event describe it.
pub proof fn lemma_wire_of_describes(event: EventView)
    ensures
        describes(wire_of(event), event),
{
    let entries = wire_of(event);
    let n = entries.len() as int;
    assert(entries[0].field == Field::Id && entries[1].field == Field::Timestamp
        && entries[2].field == Field::Severity && entries[3].field == Field::Type);
    assert(entries[n - 4].field == Field::Hostname && entries[n - 3].field == Field::Tags
        && entries[n - 2].field == Field::RuleTriggered && entries[n - 1].field
        == Field::RuleName);
    match event.kind {
        EventKind::FileIntegrity { path, operation, hash } => {
            assert(n == 11);
            assert(entries[4].field == Field::Path && entries[5].field == Field::Operation
                && entries[6].field == Field::Hash);
        },
        EventKind::NetworkSocket { local_addr, remote_addr, protocol, state } => {
            assert(n == 12);
            assert(entries[4].field == Field::LocalAddr && entries[5].field == Field::RemoteAddr
                && entries[6].field == Field::Protocol && entries[7].field == Field::State);
        },
        EventKind::SystemLog { source, level, message } => {
            assert(n == 11);
            assert(entries[4].field == Field::Source && entries[5].field == Field::Level
                && entries[6].field == Field::Message);
        },
        EventKind::ProcessMonitor { pid, name, cpu_usage, memory_usage } => {
            assert(n == 12);
            assert(entries[4].field == Field::Pid && entries[5].field == Field::Name
                && entries[6].field == Field::CpuUsage && entries[7].field
                == Field::MemoryUsage);
        },
    }
    assert forall|i: int| 0 <= i < n implies stands(
        entries,
        (#[trigger] entries[i]).field,
        entries[i].value,
    ) by {
        lemma_stands_at(entries, i);
    }
    assert(stands(entries, entries[0].field, entries[0].value));
    assert(stands(entries, entries[1].field, entries[1].value));
    assert(stands(entries, entries[2].field, entries[2].value));
    assert(stands(entries, entries[3].field, entries[3].value));
    assert(stands(entries, entries[4].field, entries[4].value));
    assert(stands(entries, entries[5].field, entries[5].value));
    assert(stands(entries, entries[6].field, entries[6].value));
    assert(stands(entries, entries[7].field, entries[7].value));
    assert(stands(entries, entries[n - 4].field, entries[n - 4].value));
    assert(stands(entries, entries[n - 3].field, entries[n - 3].value));
    assert(stands(entries, entries[n - 2].field, entries[n - 2].value));
    assert(stands(entries, entries[n - 1].field, entries[n - 1].value));
}

/// Entries that describe an event whose rule flag and rule name agree are
/// read as that event.
pub proof fn lemma_described_event_is_read(entries: Seq<Entry>, event: EventView)
    requires
        describes(entries, event),
        event.well_formed(),
    ensures
        event_of(entries) == Ok::<EventView, WireError>(event),
{
    let tag = tag_of(event.kind);
    let fields = schema(Some(tag));
    lemma_value_names_differ();
    assert(declared_tag(entries) == Some(tag));
    assert(decoded(entries, tag).kind == event.kind);
    assert(decoded(entries, tag) == event);
    assert forall|i: int| 0 <= i < fields.len() implies fault(entries, #[trigger] fields[i])
        is None by {
        lemma_described_field_is_sound(entries, event, fields[i]);
    }
    assert(!exists|i: int| is_first_fault(entries, fields, i));
}

/// A field of the schema of the kind of a described event has no fault.
proof fn lemma_described_field_is_sound(entries: Seq<Entry>, event: EventView, field: Field)
    requires
        describes(entries, event),
        schema(Some(tag_of(event.kind))).contains(field),
    ensures
        fault(entries, field) is None,
{
    lemma_value_names_differ();
    let fields = schema(Some(tag_of(event.kind)));
    let i = choose|i: int| 0 <= i < fields.len() && fields[i] == field;
    assert(fields[i] == field);
}

/// Writing an event as entries and reading the entries back gives the event
/// again, field for field.
pub proof fn lemma_wire_round_trip(event: EventView)
    requires
        event.well_formed(),
    ensures
        event_of(wire_of(event)) == Ok::<EventView, WireError>(event),
{
    lemma_wire_of_describes(event);
    lemma_described_event_is_read(wire_of(event), event);
}

/// Entries that describe an event whose rule flag and rule name disagree are
/// refused: the flag is the value out of place.
pub proof fn lemma_inconsistent_event_is_refused(entries: Seq<Entry>, event: EventView)
    requires
        describes(entries, event),
        !event.well_formed(),
    ensures
        event_of(entries) == Err::<EventView, WireError>(
            WireError::Invalid(Field::RuleTriggered),
        ),
{
    let tag = tag_of(event.kind);
    let fields = schema(Some(tag));
    lemma_value_names_differ();
    assert(declared_tag(entries) == Some(tag));
    assert(decoded(entries, tag).kind == event.kind);
    assert(decoded(entries, tag) == event);
    assert forall|i: int| 0 <= i < fields.len() implies fault(entries, #[trigger] fields[i])
        is None by {
        lemma_described_field_is_sound(entries, event, fields[i]);
    }
    assert(!exists|i: int| is_first_fault(entries, fields, i));
}

/// Whatever is read from entries has its rule flag set exactly when it has a
/// rule name.
pub proof fn lemma_read_event_is_well_formed(entries: Seq<Entry>)
    ensures
        event_of(entries) matches Ok(event) ==> event.well_formed(),
{
}

} // verus!
