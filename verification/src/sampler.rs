//! The system sampler: one event per interval with the machine's aggregate
//! CPU and memory use.

use crate::event::{
    current_time, fresh_event_id, is_random_uuid, EventKind, EventType, EventView, LogEvent,
    Timestamp,
};
use crate::severity::Severity;
use vstd::prelude::*;

verus! {

/// Seconds between two samples.
pub const SAMPLE_INTERVAL_SECS: u64 = 1;

/// What the sampler does after it has handed a sample to the queue.
#[derive(Debug, Clone, Copy, PartialEq, Eq, Structural, Hash)]
pub enum SamplerStep {
    /// Sleep for the given number of seconds, then sample again.
    SleepThenSample { seconds: u64 },
    /// The queue is closed: end the loop.
    Stop,
}

/// The event for one sample. It has the shape of a process sample, but the
/// numbers are those of the whole machine: `pid` is the sampler's own process
/// and the name is always `system`.
pub open spec fn system_sample(
    id: u128,
    timestamp: Timestamp,
    pid: u32,
    cpu_usage: u32,
    memory_usage: u64,
    hostname: Seq<char>,
) -> EventView {
    EventView::fresh(
        id,
        timestamp,
        Severity::Info,
        EventKind::ProcessMonitor { pid, name: "system"@, cpu_usage, memory_usage },
        hostname,
    ).tagged("system_monitor"@)
}

/// Builds the event for one sample, with the given identifier and creation
/// time. `cpu_usage` is the bit pattern of the single-precision percentage.
pub fn build_system_sample(
    id: u128,
    timestamp: Timestamp,
    pid: u32,
    cpu_usage: u32,
    memory_usage: u64,
    hostname: &str,
) -> (event: LogEvent)
    ensures
        event@ == system_sample(id, timestamp, pid, cpu_usage, memory_usage, hostname@),
        event@.well_formed(),
{
    let kind = EventType::ProcessMonitor {
        pid,
        name: "system".to_owned(),
        cpu_usage,
        memory_usage,
    };
    LogEvent::new_with(id, timestamp, Severity::Info, kind, hostname.to_owned()).with_tag(
        "system_monitor",
    )
}

/// Builds the event for one sample taken now, with a fresh identifier.
pub fn sample_system(pid: u32, cpu_usage: u32, memory_usage: u64, hostname: &str) -> (event:
    LogEvent)
    ensures
        event@ == system_sample(
            event.id,
            event.timestamp,
            pid,
            cpu_usage,
            memory_usage,
            hostname@,
        ),
        event@.well_formed(),
        is_random_uuid(event.id),
{
    let id: u128 = fresh_event_id();
    let timestamp = current_time();
    build_system_sample(id, timestamp, pid, cpu_usage, memory_usage, hostname)
}

/// Decides what the sampler does after a send: it goes on, one interval
/// later, as long as the queue took the sample, and stops once the queue is
/// closed.
pub fn after_send(delivered: bool) -> (step: SamplerStep)
    ensures
        step == if delivered {
            SamplerStep::SleepThenSample { seconds: SAMPLE_INTERVAL_SECS }
        } else {
            SamplerStep::Stop
        },
{
    if delivered {
        SamplerStep::SleepThenSample { seconds: SAMPLE_INTERVAL_SECS }
    } else {
        SamplerStep::Stop
    }
}

} // verus!
