//! The wire schema: an event as the ordered list of named values that one
//! line of the event stream holds, and the way back from such a list.
//!
//! How a value is written as text is left to whoever writes the line; this
//! module says which entries a line holds, under which names and in which
//! order, and which lists of entries are events.

pub mod decode;
pub mod encode;
pub mod field;
pub mod laws;
pub mod value;

pub use decode::{check_field, WireError};
pub use field::{Field, Shape};
pub use value::{
    operation_text, parse_operation, parse_severity, parse_tag, severity_text, tag_text, KindTag,
    WireField, WireValue,
};
