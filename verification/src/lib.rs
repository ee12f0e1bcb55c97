//! Event pipeline of a host-activity monitoring agent: the event model, the
//! ordered rule engine, the classification of file changes, the system
//! sample, and the dispatcher's stamping of rule matches.

pub mod dispatcher;
pub mod event;
pub mod rules;
pub mod sampler;
pub mod scanner;
pub mod severity;
pub mod text;
pub mod watcher;
pub mod wire;

pub use event::{EventType, FileOperation, LogEvent, Timestamp};
pub use rules::RuleEngine;
pub use scanner::YaraScanner;
pub use severity::Severity;
