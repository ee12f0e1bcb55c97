//! The names of the wire schema and the shapes of the values under them.

use crate::text::str_equals;
use vstd::prelude::*;

verus! {

/// The names that the wire schema knows.
#[derive(Debug, Clone, Copy, PartialEq, Eq, Structural, Hash)]
pub enum Field {
    Id,
    Timestamp,
    Severity,
    Type,
    Path,
    Operation,
    Hash,
    LocalAddr,
    RemoteAddr,
    Protocol,
    State,
    Source,
    Level,
    Message,
    Pid,
    Name,
    CpuUsage,
    MemoryUsage,
    Hostname,
    Tags,
    RuleTriggered,
    RuleName,
}

impl Field {
    /// The name of the field as it is written on the wire.
    pub open spec fn wire_name(self) -> Seq<char> {
        match self {
            Field::Id => "id"@,
            Field::Timestamp => "timestamp"@,
            Field::Severity => "severity"@,
            Field::Type => "type"@,
            Field::Path => "path"@,
            Field::Operation => "operation"@,
            Field::Hash => "hash"@,
            Field::LocalAddr => "local_addr"@,
            Field::RemoteAddr => "remote_addr"@,
            Field::Protocol => "protocol"@,
            Field::State => "state"@,
            Field::Source => "source"@,
            Field::Level => "level"@,
            Field::Message => "message"@,
            Field::Pid => "pid"@,
            Field::Name => "name"@,
            Field::CpuUsage => "cpu_usage"@,
            Field::MemoryUsage => "memory_usage"@,
            Field::Hostname => "hostname"@,
            Field::Tags => "tags"@,
            Field::RuleTriggered => "rule_triggered"@,
            Field::RuleName => "rule_name"@,
        }
    }

    /// The field that is written with the given name, if there is one.
    pub open spec fn named(text: Seq<char>) -> Option<Field> {
        if exists|field: Field| field.wire_name() == text {
            Some(choose|field: Field| field.wire_name() == text)
        } else {
            None
        }
    }

    /// Gives the name of the field as it is written on the wire.
    pub fn name(self) -> (text: &'static str)
        ensures
            text@ == self.wire_name(),
    {
        match self {
            Field::Id => "id",
            Field::Timestamp => "timestamp",
            Field::Severity => "severity",
            Field::Type => "type",
            Field::Path => "path",
            Field::Operation => "operation",
            Field::Hash => "hash",
            Field::LocalAddr => "local_addr",
            Field::RemoteAddr => "remote_addr",
            Field::Protocol => "protocol",
            Field::State => "state",
            Field::Source => "source",
            Field::Level => "level",
            Field::Message => "message",
            Field::Pid => "pid",
            Field::Name => "name",
            Field::CpuUsage => "cpu_usage",
            Field::MemoryUsage => "memory_usage",
            Field::Hostname => "hostname",
            Field::Tags => "tags",
            Field::RuleTriggered => "rule_triggered",
            Field::RuleName => "rule_name",
        }
    }

    /// Finds the field that is written with the given name. Names are
    /// compared exactly, letter case included.
    pub fn from_name(text: &str) -> (field: Option<Field>)
        ensures
            field == Field::named(text@),
    {
        proof {
            lemma_wire_names_differ();
        }
        if str_equals(text, "id") {
            assert(Field::Id.wire_name() == text@);
            Some(Field::Id)
        } else if str_equals(text, "timestamp") {
            assert(Field::Timestamp.wire_name() == text@);
            Some(Field::Timestamp)
        } else if str_equals(text, "severity") {
            assert(Field::Severity.wire_name() == text@);
            Some(Field::Severity)
        } else if str_equals(text, "type") {
            assert(Field::Type.wire_name() == text@);
            Some(Field::Type)
        } else if str_equals(text, "path") {
            assert(Field::Path.wire_name() == text@);
            Some(Field::Path)
        } else if str_equals(text, "operation") {
            assert(Field::Operation.wire_name() == text@);
            Some(Field::Operation)
        } else if str_equals(text, "hash") {
            assert(Field::Hash.wire_name() == text@);
            Some(Field::Hash)
        } else if str_equals(text, "local_addr") {
            assert(Field::LocalAddr.wire_name() == text@);
            Some(Field::LocalAddr)
        } else if str_equals(text, "remote_addr") {
            assert(Field::RemoteAddr.wire_name() == text@);
            Some(Field::RemoteAddr)
        } else if str_equals(text, "protocol") {
            assert(Field::Protocol.wire_name() == text@);
            Some(Field::Protocol)
        } else if str_equals(text, "state") {
            assert(Field::State.wire_name() == text@);
            Some(Field::State)
        } else if str_equals(text, "source") {
            assert(Field::Source.wire_name() == text@);
            Some(Field::Source)
        } else if str_equals(text, "level") {
            assert(Field::Level.wire_name() == text@);
            Some(Field::Level)
        } else if str_equals(text, "message") {
            assert(Field::Message.wire_name() == text@);
            Some(Field::Message)
        } else if str_equals(text, "pid") {
            assert(Field::Pid.wire_name() == text@);
            Some(Field::Pid)
        } else if str_equals(text, "name") {
            assert(Field::Name.wire_name() == text@);
            Some(Field::Name)
        } else if str_equals(text, "cpu_usage") {
            assert(Field::CpuUsage.wire_name() == text@);
            Some(Field::CpuUsage)
        } else if str_equals(text, "memory_usage") {
            assert(Field::MemoryUsage.wire_name() == text@);
            Some(Field::MemoryUsage)
        } else if str_equals(text, "hostname") {
            assert(Field::Hostname.wire_name() == text@);
            Some(Field::Hostname)
        } else if str_equals(text, "tags") {
            assert(Field::Tags.wire_name() == text@);
            Some(Field::Tags)
        } else if str_equals(text, "rule_triggered") {
            assert(Field::RuleTriggered.wire_name() == text@);
            Some(Field::RuleTriggered)
        } else if str_equals(text, "rule_name") {
            assert(Field::RuleName.wire_name() == text@);
            Some(Field::RuleName)
        } else {
            assert forall|field: Field| field.wire_name() != text@ by {
                lemma_wire_name_cases(field);
            }
            None
        }
    }
}

/// Every field has one of the wire names.
pub proof fn lemma_wire_name_cases(field: Field)
    ensures
        field.wire_name() == "id"@
        || field.wire_name() == "timestamp"@
        || field.wire_name() == "severity"@
        || field.wire_name() == "type"@
        || field.wire_name() == "path"@
        || field.wire_name() == "operation"@
        || field.wire_name() == "hash"@
        || field.wire_name() == "local_addr"@
        || field.wire_name() == "remote_addr"@
        || field.wire_name() == "protocol"@
        || field.wire_name() == "state"@
        || field.wire_name() == "source"@
        || field.wire_name() == "level"@
        || field.wire_name() == "message"@
        || field.wire_name() == "pid"@
        || field.wire_name() == "name"@
        || field.wire_name() == "cpu_usage"@
        || field.wire_name() == "memory_usage"@
        || field.wire_name() == "hostname"@
        || field.wire_name() == "tags"@
        || field.wire_name() == "rule_triggered"@
        || field.wire_name() == "rule_name"@,
{
}

/// No two fields are written with the same name.
pub proof fn lemma_wire_names_differ()
    ensures
        forall|a: Field, b: Field| a.wire_name() == b.wire_name() ==> a == b,
        forall|field: Field| Field::named(#[trigger] field.wire_name()) == Some(field),
{
    reveal_strlit("id");
    reveal_strlit("timestamp");
    reveal_strlit("severity");
    reveal_strlit("type");
    reveal_strlit("path");
    reveal_strlit("operation");
    reveal_strlit("hash");
    reveal_strlit("local_addr");
    reveal_strlit("remote_addr");
    reveal_strlit("protocol");
    reveal_strlit("state");
    reveal_strlit("source");
    reveal_strlit("level");
    reveal_strlit("message");
    reveal_strlit("pid");
    reveal_strlit("name");
    reveal_strlit("cpu_usage");
    reveal_strlit("memory_usage");
    reveal_strlit("hostname");
    reveal_strlit("tags");
    reveal_strlit("rule_triggered");
    reveal_strlit("rule_name");
    assert forall|a: Field, b: Field| a.wire_name() == b.wire_name() implies a == b by {
        lemma_wire_name_shape(a);
        lemma_wire_name_shape(b);
    }
}

/// The length and the first, third and last letters of a wire name tell the
/// fields apart.
proof fn lemma_wire_name_shape(field: Field)
    ensures
        match field {
            Field::Id => {
                &&& field.wire_name().len() == 2
                &&& field.wire_name()[0] == 'i'
                &&& field.wire_name()[1] == 'd'
            },
            Field::Timestamp => {
                &&& field.wire_name().len() == 9
                &&& field.wire_name()[0] == 't'
                &&& field.wire_name()[2] == 'm'
                &&& field.wire_name()[8] == 'p'
            },
            Field::Severity => {
                &&& field.wire_name().len() == 8
                &&& field.wire_name()[0] == 's'
                &&& field.wire_name()[2] == 'v'
                &&& field.wire_name()[7] == 'y'
            },
            Field::Type => {
                &&& field.wire_name().len() == 4
                &&& field.wire_name()[0] == 't'
                &&& field.wire_name()[2] == 'p'
                &&& field.wire_name()[3] == 'e'
            },
            Field::Path => {
                &&& field.wire_name().len() == 4
                &&& field.wire_name()[0] == 'p'
                &&& field.wire_name()[2] == 't'
                &&& field.wire_name()[3] == 'h'
            },
            Field::Operation => {
                &&& field.wire_name().len() == 9
                &&& field.wire_name()[0] == 'o'
                &&& field.wire_name()[2] == 'e'
                &&& field.wire_name()[8] == 'n'
            },
            Field::Hash => {
                &&& field.wire_name().len() == 4
                &&& field.wire_name()[0] == 'h'
                &&& field.wire_name()[2] == 's'
                &&& field.wire_name()[3] == 'h'
            },
            Field::LocalAddr => {
                &&& field.wire_name().len() == 10
                &&& field.wire_name()[0] == 'l'
                &&& field.wire_name()[2] == 'c'
                &&& field.wire_name()[9] == 'r'
            },
            Field::RemoteAddr => {
                &&& field.wire_name().len() == 11
                &&& field.wire_name()[0] == 'r'
                &&& field.wire_name()[2] == 'm'
                &&& field.wire_name()[10] == 'r'
            },
            Field::Protocol => {
                &&& field.wire_name().len() == 8
                &&& field.wire_name()[0] == 'p'
                &&& field.wire_name()[2] == 'o'
                &&& field.wire_name()[7] == 'l'
            },
            Field::State => {
                &&& field.wire_name().len() == 5
                &&& field.wire_name()[0] == 's'
                &&& field.wire_name()[2] == 'a'
                &&& field.wire_name()[4] == 'e'
            },
            Field::Source => {
                &&& field.wire_name().len() == 6
                &&& field.wire_name()[0] == 's'
                &&& field.wire_name()[2] == 'u'
                &&& field.wire_name()[5] == 'e'
            },
            Field::Level => {
                &&& field.wire_name().len() == 5
                &&& field.wire_name()[0] == 'l'
                &&& field.wire_name()[2] == 'v'
                &&& field.wire_name()[4] == 'l'
            },
            Field::Message => {
                &&& field.wire_name().len() == 7
                &&& field.wire_name()[0] == 'm'
                &&& field.wire_name()[2] == 's'
                &&& field.wire_name()[6] == 'e'
            },
            Field::Pid => {
                &&& field.wire_name().len() == 3
                &&& field.wire_name()[0] == 'p'
                &&& field.wire_name()[2] == 'd'
                &&& field.wire_name()[2] == 'd'
            },
            Field::Name => {
                &&& field.wire_name().len() == 4
                &&& field.wire_name()[0] == 'n'
                &&& field.wire_name()[2] == 'm'
                &&& field.wire_name()[3] == 'e'
            },
            Field::CpuUsage => {
                &&& field.wire_name().len() == 9
                &&& field.wire_name()[0] == 'c'
                &&& field.wire_name()[2] == 'u'
                &&& field.wire_name()[8] == 'e'
            },
            Field::MemoryUsage => {
                &&& field.wire_name().len() == 12
                &&& field.wire_name()[0] == 'm'
                &&& field.wire_name()[2] == 'm'
                &&& field.wire_name()[11] == 'e'
            },
            Field::Hostname => {
                &&& field.wire_name().len() == 8
                &&& field.wire_name()[0] == 'h'
                &&& field.wire_name()[2] == 's'
                &&& field.wire_name()[7] == 'e'
            },
            Field::Tags => {
                &&& field.wire_name().len() == 4
                &&& field.wire_name()[0] == 't'
                &&& field.wire_name()[2] == 'g'
                &&& field.wire_name()[3] == 's'
            },
            Field::RuleTriggered => {
                &&& field.wire_name().len() == 14
                &&& field.wire_name()[0] == 'r'
                &&& field.wire_name()[2] == 'l'
                &&& field.wire_name()[13] == 'd'
            },
            Field::RuleName => {
                &&& field.wire_name().len() == 9
                &&& field.wire_name()[0] == 'r'
                &&& field.wire_name()[2] == 'l'
                &&& field.wire_name()[8] == 'e'
            },
        },
{
    reveal_strlit("id");
    reveal_strlit("timestamp");
    reveal_strlit("severity");
    reveal_strlit("type");
    reveal_strlit("path");
    reveal_strlit("operation");
    reveal_strlit("hash");
    reveal_strlit("local_addr");
    reveal_strlit("remote_addr");
    reveal_strlit("protocol");
    reveal_strlit("state");
    reveal_strlit("source");
    reveal_strlit("level");
    reveal_strlit("message");
    reveal_strlit("pid");
    reveal_strlit("name");
    reveal_strlit("cpu_usage");
    reveal_strlit("memory_usage");
    reveal_strlit("hostname");
    reveal_strlit("tags");
    reveal_strlit("rule_triggered");
    reveal_strlit("rule_name");
}

/// The shape of the values that a field holds.
#[derive(Debug, Clone, Copy, PartialEq, Eq, Structural, Hash)]
pub enum Shape {
    Uuid,
    Time,
    Unsigned,
    Single,
    Text,
    TextList,
    Bool,
}

impl Field {
    /// The shape of the values that the field holds.
    pub open spec fn wire_shape(self) -> Shape {
        match self {
            Field::Id => Shape::Uuid,
            Field::Timestamp => Shape::Time,
            Field::Pid | Field::MemoryUsage => Shape::Unsigned,
            Field::CpuUsage => Shape::Single,
            Field::Tags => Shape::TextList,
            Field::RuleTriggered => Shape::Bool,
            _ => Shape::Text,
        }
    }

    /// Gives the shape of the values that the field holds.
    pub fn shape(self) -> (shape: Shape)
        ensures
            shape == self.wire_shape(),
    {
        match self {
            Field::Id => Shape::Uuid,
            Field::Timestamp => Shape::Time,
            Field::Pid | Field::MemoryUsage => Shape::Unsigned,
            Field::CpuUsage => Shape::Single,
            Field::Tags => Shape::TextList,
            Field::RuleTriggered => Shape::Bool,
            _ => Shape::Text,
        }
    }
}

} // verus!
