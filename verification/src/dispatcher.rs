//! The dispatcher: the single consumer of the queue. It stamps each event
//! with the verdict of the rule engine and forwards it, in the order in which
//! the events were received.

use crate::event::{EventView, LogEvent};
use crate::rules::{verdict, RuleEngine, RulePredicate, RuleView};
use vstd::prelude::*;

verus! {

/// Number of events that the queue between the producers and the dispatcher
/// holds before a producer has to wait.
pub const QUEUE_CAPACITY: usize = 1000;

/// The event as it leaves the dispatcher: marked with the rule that the
/// engine names, and left as it is when the engine names none.
pub open spec fn stamped(event: EventView, verdict: Option<Seq<char>>) -> EventView {
    match verdict {
        Some(name) => event.ruled(name),
        None => event,
    }
}

/// The event as it leaves a dispatcher that holds the given rules.
pub open spec fn dispatched(rules: Seq<RuleView>, event: EventView) -> EventView {
    stamped(event, verdict(rules, event))
}

/// What the dispatcher does with what it received from the queue.
#[derive(Debug, Clone, PartialEq, Eq)]
pub enum DispatchStep {
    /// Hand the event to the sink, then receive again.
    Forward(LogEvent),
    /// The queue is closed and empty: end the loop.
    Shutdown,
}

/// Marks the event with the rule that was found for it, if one was.
pub fn stamp(event: LogEvent, verdict: Option<String>) -> (out: LogEvent)
    ensures
        out@ == stamped(event@, verdict.deep_view()),
        event@.well_formed() ==> out@.well_formed(),
{
    match verdict {
        Some(name) => event.with_rule(name.as_str()),
        None => event,
    }
}

/// Evaluates the rules on the event and marks it with the first that holds.
/// Nothing but the rule flag and the rule name changes.
pub fn dispatch<C: RulePredicate>(engine: &RuleEngine<C>, event: LogEvent) -> (out: LogEvent)
    ensures
        out@ == dispatched(engine@, event@),
        event@.well_formed() ==> out@.well_formed(),
{
    let verdict = engine.evaluate(&event);
    stamp(event, verdict)
}

/// One turn of the dispatcher's loop: an event that was received is stamped
/// and forwarded; the end of the queue ends the loop.
pub fn on_receive<C: RulePredicate>(engine: &RuleEngine<C>, received: Option<LogEvent>) -> (step:
    DispatchStep)
    ensures
        match received {
            Some(event) => step matches DispatchStep::Forward(out) && out@ == dispatched(
                engine@,
                event@,
            ) && (event@.well_formed() ==> out@.well_formed()),
            None => step == DispatchStep::Shutdown,
        },
{
    match received {
        Some(event) => DispatchStep::Forward(dispatch(engine, event)),
        None => DispatchStep::Shutdown,
    }
}

/// The event comes from the producer that marks its events with the given
/// tag: a producer's own tag is the first tag of an event.
pub open spec fn is_from(event: EventView, producer: Seq<char>) -> bool {
    event.tags.len() > 0 && event.tags[0] == producer
}

/// What the dispatcher forwards for what it received, event by event and in
/// the order received.
pub open spec fn forwarded(rules: Seq<RuleView>, received: Seq<EventView>) -> Seq<EventView> {
    received.map_values(|event: EventView| dispatched(rules, event))
}

/// The dispatcher changes neither which producer an event is from nor the
/// order of the events: what it forwards of one producer's events is what it
/// would forward had it received that producer's events alone.
pub proof fn lemma_producer_order_is_kept(
    rules: Seq<RuleView>,
    received: Seq<EventView>,
    producer: Seq<char>,
)
    ensures
        forwarded(rules, received).filter(|event: EventView| is_from(event, producer))
            == forwarded(rules, received.filter(|event: EventView| is_from(event, producer))),
    decreases received.len(),
{
    let from_producer = |event: EventView| is_from(event, producer);
    reveal(Seq::filter);
    if received.len() == 0 {
        assert(forwarded(rules, received) =~= Seq::<EventView>::empty());
        assert(forwarded(rules, received.filter(from_producer)) =~= Seq::<EventView>::empty());
    } else {
        let earlier = received.drop_last();
        let last = received.last();
        lemma_producer_order_is_kept(rules, earlier, producer);
        assert(forwarded(rules, received).drop_last() =~= forwarded(rules, earlier));
        assert(forwarded(rules, received).last() == dispatched(rules, last));
        assert(is_from(dispatched(rules, last), producer) == is_from(last, producer));
        if is_from(last, producer) {
            assert(forwarded(rules, earlier.filter(from_producer).push(last)) =~= forwarded(
                rules,
                earlier.filter(from_producer),
            ).push(dispatched(rules, last)));
        }
    }
}

} // verus!
