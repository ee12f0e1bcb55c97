//! The rule engine: an ordered list of named predicates over events, of
//! which the first that holds gives the verdict.

use crate::event::{EventKind, EventType, EventView, FileOperation, LogEvent};
use crate::severity::Severity;
use crate::text::{contains_text, str_contains};
use vstd::prelude::*;

verus! {

/// A predicate over events. `holds` says what it decides; `matches` computes
/// exactly that.
pub trait RulePredicate {
    spec fn holds(&self, event: EventView) -> bool;

    fn matches(&self, event: &LogEvent) -> (verdict: bool)
        ensures
            verdict == self.holds(event@),
    ;
}

/// Mathematical view of a rule: its name and the set of events it matches.
#[verifier::ext_equal]
pub ghost struct RuleView {
    pub name: Seq<char>,
    pub holds: spec_fn(EventView) -> bool,
}

/// Rule `i` holds of the event and no rule before it does.
pub open spec fn is_first_match(rules: Seq<RuleView>, event: EventView, i: int) -> bool {
    &&& 0 <= i < rules.len()
    &&& (rules[i].holds)(event)
    &&& forall|j: int| 0 <= j < i ==> !(#[trigger] rules[j].holds)(event)
}

/// The name of the first rule, in list order, that holds of the event; `None`
/// when no rule holds.
pub open spec fn verdict(rules: Seq<RuleView>, event: EventView) -> Option<Seq<char>> {
    if exists|i: int| is_first_match(rules, event, i) {
        Some(rules[choose|i: int| is_first_match(rules, event, i)].name)
    } else {
        None
    }
}

/// At most one rule is the first match.
pub proof fn lemma_first_match_unique(rules: Seq<RuleView>, event: EventView, i: int, j: int)
    requires
        is_first_match(rules, event, i),
        is_first_match(rules, event, j),
    ensures
        i == j,
{
    if i < j {
        assert(!(rules[i].holds)(event));
    } else if j < i {
        assert(!(rules[j].holds)(event));
    }
}

/// The verdict names rule `i` exactly when `i` is the first rule that holds,
/// and there is no verdict exactly when no rule holds.
pub proof fn lemma_verdict_is_first_match(rules: Seq<RuleView>, event: EventView)
    ensures
        forall|i: int|
            is_first_match(rules, event, i) ==> verdict(rules, event) == Some(rules[i].name),
        verdict(rules, event) is Some ==> exists|i: int|
            is_first_match(rules, event, i) && verdict(rules, event) == Some(rules[i].name),
        verdict(rules, event) is None <==> forall|i: int|
            0 <= i < rules.len() ==> !(#[trigger] rules[i].holds)(event),
{
    assert forall|i: int| is_first_match(rules, event, i) implies verdict(rules, event) == Some(
        rules[i].name,
    ) by {
        let c = choose|c: int| is_first_match(rules, event, c);
        lemma_first_match_unique(rules, event, i, c);
    }
    if forall|i: int| 0 <= i < rules.len() ==> !(#[trigger] rules[i].holds)(event) {
        assert(!exists|i: int| is_first_match(rules, event, i));
    } else {
        let k = choose|k: int| 0 <= k < rules.len() && (#[trigger] rules[k].holds)(event);
        lemma_some_rule_holds(rules, event, k);
    }
}

/// Where some rule holds, there is a first one, at or before it.
pub proof fn lemma_some_rule_holds(rules: Seq<RuleView>, event: EventView, k: int)
    requires
        0 <= k < rules.len(),
        (rules[k].holds)(event),
    ensures
        exists|i: int| 0 <= i <= k && is_first_match(rules, event, i),
    decreases k,
{
    if forall|j: int| 0 <= j < k ==> !(#[trigger] rules[j].holds)(event) {
        assert(is_first_match(rules, event, k));
    } else {
        let j = choose|j: int| 0 <= j < k && (#[trigger] rules[j].holds)(event);
        lemma_some_rule_holds(rules, event, j);
    }
}

/// A file under watch that holds accounts or privileges was modified or
/// deleted: the path contains `/etc/passwd`, `/etc/shadow` or `/etc/sudoers`.
pub open spec fn is_critical_file_modification(event: EventView) -> bool {
    &&& event.kind matches EventKind::FileIntegrity { path, operation, .. }
    &&& (operation == FileOperation::Modify || operation == FileOperation::Delete)
    &&& (contains_text(path, "/etc/passwd"@) || contains_text(path, "/etc/shadow"@)
        || contains_text(path, "/etc/sudoers"@))
}

/// The event's severity is `High` or `Critical`.
pub open spec fn is_high_severity(event: EventView) -> bool {
    event.severity.at_least(Severity::High)
}

/// A socket whose remote address is present and contains `:4444` or `:31337`.
pub open spec fn is_suspicious_network(event: EventView) -> bool {
    &&& event.kind matches EventKind::NetworkSocket { remote_addr: Some(addr), .. }
    &&& (contains_text(addr, ":4444"@) || contains_text(addr, ":31337"@))
}

/// The single-precision number with the bit pattern `bits` is greater than
/// 90. The numbers above 90 are the positive ones from the successor of 90
/// (`0x42B4_0000` is 90 itself) up to positive infinity (`0x7F80_0000`);
/// negative numbers have the top bit set and NaNs lie above infinity.
pub open spec fn exceeds_ninety(bits: u32) -> bool {
    0x42B4_0000 < bits <= 0x7F80_0000
}

/// A process sample whose CPU usage is strictly greater than 90 percent.
pub open spec fn is_high_cpu_usage(event: EventView) -> bool {
    &&& event.kind matches EventKind::ProcessMonitor { cpu_usage, .. }
    &&& exceeds_ninety(cpu_usage)
}

/// Built-in rule `critical_file_modification`.
pub struct CriticalFileModification;

/// Built-in rule `high_severity_alert`.
pub struct HighSeverityAlert;

/// Built-in rule `suspicious_network`.
pub struct SuspiciousNetwork;

/// Built-in rule `high_cpu_usage`.
pub struct HighCpuUsage;

impl RulePredicate for CriticalFileModification {
    open spec fn holds(&self, event: EventView) -> bool {
        is_critical_file_modification(event)
    }

    fn matches(&self, event: &LogEvent) -> (verdict: bool) {
        match &event.event_type {
            EventType::FileIntegrity { path, operation, .. } => {
                let changed = match operation {
                    FileOperation::Modify => true,
                    FileOperation::Delete => true,
                    _ => false,
                };
                changed && (str_contains(path.as_str(), "/etc/passwd") || str_contains(
                    path.as_str(),
                    "/etc/shadow",
                ) || str_contains(path.as_str(), "/etc/sudoers"))
            },
            _ => false,
        }
    }
}

impl RulePredicate for HighSeverityAlert {
    open spec fn holds(&self, event: EventView) -> bool {
        is_high_severity(event)
    }

    fn matches(&self, event: &LogEvent) -> (verdict: bool) {
        event.severity.is_at_least(Severity::High)
    }
}

impl RulePredicate for SuspiciousNetwork {
    open spec fn holds(&self, event: EventView) -> bool {
        is_suspicious_network(event)
    }

    fn matches(&self, event: &LogEvent) -> (verdict: bool) {
        match &event.event_type {
            EventType::NetworkSocket { remote_addr: Some(addr), .. } => {
                str_contains(addr.as_str(), ":4444") || str_contains(addr.as_str(), ":31337")
            },
            _ => false,
        }
    }
}

impl RulePredicate for HighCpuUsage {
    open spec fn holds(&self, event: EventView) -> bool {
        is_high_cpu_usage(event)
    }

    fn matches(&self, event: &LogEvent) -> (verdict: bool) {
        match &event.event_type {
            EventType::ProcessMonitor { cpu_usage, .. } => {
                0x42B4_0000 < *cpu_usage && *cpu_usage <= 0x7F80_0000
            },
            _ => false,
        }
    }
}

/// The four built-in rules, in their order of precedence.
pub open spec fn builtin_rules() -> Seq<RuleView> {
    seq![
        RuleView {
            name: "critical_file_modification"@,
            holds: |event: EventView| is_critical_file_modification(event),
        },
        RuleView {
            name: "high_severity_alert"@,
            holds: |event: EventView| is_high_severity(event),
        },
        RuleView {
            name: "suspicious_network"@,
            holds: |event: EventView| is_suspicious_network(event),
        },
        RuleView { name: "high_cpu_usage"@, holds: |event: EventView| is_high_cpu_usage(event) },
    ]
}

/// The verdict of the built-in rules, by their precedence.
pub open spec fn builtin_verdict(event: EventView) -> Option<Seq<char>> {
    if is_critical_file_modification(event) {
        Some("critical_file_modification"@)
    } else if is_high_severity(event) {
        Some("high_severity_alert"@)
    } else if is_suspicious_network(event) {
        Some("suspicious_network"@)
    } else if is_high_cpu_usage(event) {
        Some("high_cpu_usage"@)
    } else {
        None
    }
}

/// The built-in rules give the verdict of the first of them that holds, in
/// the order critical file modification, high severity, suspicious network,
/// high CPU usage.
pub proof fn lemma_builtin_verdict(event: EventView)
    ensures
        verdict(builtin_rules(), event) == builtin_verdict(event),
{
    let rules = builtin_rules();
    lemma_verdict_is_first_match(rules, event);
    assert((rules[0].holds)(event) == is_critical_file_modification(event));
    assert((rules[1].holds)(event) == is_high_severity(event));
    assert((rules[2].holds)(event) == is_suspicious_network(event));
    assert((rules[3].holds)(event) == is_high_cpu_usage(event));
    if is_critical_file_modification(event) {
        assert(is_first_match(rules, event, 0));
    } else if is_high_severity(event) {
        assert(is_first_match(rules, event, 1));
    } else if is_suspicious_network(event) {
        assert(is_first_match(rules, event, 2));
    } else if is_high_cpu_usage(event) {
        assert(is_first_match(rules, event, 3));
    }
}

/// A rule that is appended is evaluated after all the rules that were there:
/// it decides only the events that none of them matched.
pub proof fn lemma_appended_rule_is_last(rules: Seq<RuleView>, rule: RuleView, event: EventView)
    ensures
        verdict(rules.push(rule), event) == match verdict(rules, event) {
            Some(name) => Some(name),
            None => if (rule.holds)(event) {
                Some(rule.name)
            } else {
                None
            },
        },
{
    let longer = rules.push(rule);
    lemma_verdict_is_first_match(rules, event);
    lemma_verdict_is_first_match(longer, event);
    assert forall|i: int| 0 <= i < rules.len() implies longer[i] == rules[i] by {}
    if verdict(rules, event) is Some {
        let i = choose|i: int|
            is_first_match(rules, event, i) && verdict(rules, event) == Some(rules[i].name);
        assert(is_first_match(longer, event, i)) by {
            assert forall|j: int| 0 <= j < i implies !(#[trigger] longer[j].holds)(event) by {
                assert(longer[j] == rules[j]);
            }
        }
    } else {
        assert forall|j: int| 0 <= j < rules.len() implies !(#[trigger] longer[j].holds)(
            event,
        ) by {
            assert(longer[j] == rules[j]);
            assert(!(rules[j].holds)(event));
        }
        if (rule.holds)(event) {
            assert(is_first_match(longer, event, rules.len() as int));
        } else {
            assert forall|j: int| 0 <= j < longer.len() implies !(#[trigger] longer[j].holds)(
                event,
            ) by {
                if j < rules.len() {
                } else {
                    assert(longer[j] == rule);
                }
            }
        }
    }
}

/// A socket without a remote address never matches the network rule.
pub proof fn lemma_absent_remote_is_not_suspicious(event: EventView)
    requires
        event.kind matches EventKind::NetworkSocket { remote_addr, .. } && remote_addr is None,
    ensures
        !is_suspicious_network(event),
{
}

/// The CPU rule is strict: 90 percent itself, and all that is below it, does
/// not match.
pub proof fn lemma_ninety_percent_is_not_high(bits: u32)
    requires
        bits <= 0x42B4_0000,
    ensures
        !exceeds_ninety(bits),
{
}

/// The kind of custom rule of an engine that holds the built-in rules only:
/// a predicate that holds of no event.
pub struct NoCustomRule;

impl RulePredicate for NoCustomRule {
    open spec fn holds(&self, event: EventView) -> bool {
        false
    }

    fn matches(&self, event: &LogEvent) -> (verdict: bool) {
        false
    }
}

/// The predicate of a registered rule: one of the built-in ones, or a custom
/// one of the engine's kind `C`.
enum Matcher<C> {
    CriticalFileModification,
    HighSeverityAlert,
    SuspiciousNetwork,
    HighCpuUsage,
    Custom(C),
}

/// A named predicate, as the engine keeps it.
struct Rule<C> {
    name: String,
    matcher: Matcher<C>,
}

impl<C: RulePredicate> Matcher<C> {
    spec fn holds(self, event: EventView) -> bool {
        match self {
            Matcher::CriticalFileModification => is_critical_file_modification(event),
            Matcher::HighSeverityAlert => is_high_severity(event),
            Matcher::SuspiciousNetwork => is_suspicious_network(event),
            Matcher::HighCpuUsage => is_high_cpu_usage(event),
            Matcher::Custom(custom) => custom.holds(event),
        }
    }

    fn matches(&self, event: &LogEvent) -> (verdict: bool)
        ensures
            verdict == self.holds(event@),
    {
        match self {
            Matcher::CriticalFileModification => CriticalFileModification.matches(event),
            Matcher::HighSeverityAlert => HighSeverityAlert.matches(event),
            Matcher::SuspiciousNetwork => SuspiciousNetwork.matches(event),
            Matcher::HighCpuUsage => HighCpuUsage.matches(event),
            Matcher::Custom(custom) => custom.matches(event),
        }
    }
}

impl<C: RulePredicate> Rule<C> {
    spec fn model(self) -> RuleView {
        RuleView { name: self.name@, holds: |event: EventView| self.matcher.holds(event) }
    }
}

/// An ordered list of rules. Rules are only ever appended, so a rule's place
/// in the list is the order in which it was registered. `C` is the kind of
/// the custom rules that can be added after the built-in ones.
pub struct RuleEngine<C = NoCustomRule> {
    rules: Vec<Rule<C>>,
}

impl<C: RulePredicate> View for RuleEngine<C> {
    type V = Seq<RuleView>;

    closed spec fn view(&self) -> Seq<RuleView> {
        self.rules@.map_values(|rule: Rule<C>| rule.model())
    }
}

impl RuleEngine<NoCustomRule> {
    /// Makes an engine that holds the built-in rules.
    pub fn new() -> (engine: RuleEngine<NoCustomRule>)
        ensures
            engine@ == builtin_rules(),
    {
        RuleEngine::with_builtin_rules()
    }
}

impl<C: RulePredicate> RuleEngine<C> {
    /// Makes an engine that holds the built-in rules and accepts custom
    /// rules of kind `C`.
    pub fn with_builtin_rules() -> (engine: RuleEngine<C>)
        ensures
            engine@ == builtin_rules(),
    {
        let mut engine = RuleEngine { rules: Vec::new() };
        assert(engine@ =~= Seq::<RuleView>::empty());
        engine.load_default_rules();
        assert(engine@ =~~= builtin_rules());
        engine
    }

    /// Appends one rule after all the rules the engine already holds.
    fn register(&mut self, name: &str, matcher: Matcher<C>)
        ensures
            final(self)@ == old(self)@.push(
                RuleView { name: name@, holds: |event: EventView| matcher.holds(event) },
            ),
    {
        let rule = Rule { name: name.to_owned(), matcher };
        let ghost added = RuleView { name: name@, holds: |event: EventView| matcher.holds(event) };
        assert(rule.model() =~~= added);
        self.rules.push(rule);
        assert(self@ =~~= old(self)@.push(added));
    }

    /// Appends the built-in rules, in their order of precedence.
    fn load_default_rules(&mut self)
        ensures
            final(self)@ == old(self)@ + builtin_rules(),
    {
        self.register("critical_file_modification", Matcher::CriticalFileModification);
        self.register("high_severity_alert", Matcher::HighSeverityAlert);
        self.register("suspicious_network", Matcher::SuspiciousNetwork);
        self.register("high_cpu_usage", Matcher::HighCpuUsage);
        assert(self@ =~~= old(self)@ + builtin_rules());
    }

    /// Appends a custom rule after all the rules the engine already holds.
    pub fn add_rule(&mut self, name: &str, matcher: C)
        ensures
            final(self)@ == old(self)@.push(
                RuleView { name: name@, holds: |event: EventView| matcher.holds(event) },
            ),
    {
        self.register(name, Matcher::Custom(matcher));
        assert(self@ =~~= old(self)@.push(
            RuleView { name: name@, holds: |event: EventView| matcher.holds(event) },
        ));
    }

    /// Evaluates the rules in order and returns the name of the first that
    /// holds of the event, or `None` when none holds.
    pub fn evaluate(&self, event: &LogEvent) -> (name: Option<String>)
        ensures
            name.deep_view() == verdict(self@, event@),
    {
        let mut i: usize = 0;
        while i < self.rules.len()
            invariant
                i <= self.rules.len(),
                forall|j: int| 0 <= j < i ==> !(#[trigger] self@[j].holds)(event@),
            decreases self.rules.len() - i,
        {
            if self.rules[i].matcher.matches(event) {
                proof {
                    assert((self@[i as int].holds)(event@));
                    assert(is_first_match(self@, event@, i as int));
                    lemma_verdict_is_first_match(self@, event@);
                }
                return Some(self.rules[i].name.clone());
            }
            i += 1;
        }
        proof {
            lemma_verdict_is_first_match(self@, event@);
        }
        None
    }
}

impl Default for RuleEngine<NoCustomRule> {
    fn default() -> (engine: RuleEngine<NoCustomRule>)
        ensures
            engine@ == builtin_rules(),
    {
        RuleEngine::new()
    }
}

} // verus!
