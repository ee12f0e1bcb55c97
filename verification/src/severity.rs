//! Severity levels and their order.

use core::cmp::Ordering;
use vstd::prelude::*;
use vstd::std_specs::cmp::PartialOrdSpecImpl;

verus! {

/// How urgent an event is. The variants are listed from least to most urgent,
/// and that is the order every comparison uses.
#[derive(Debug, Clone, Copy, PartialEq, Eq, Ord, Structural, Hash)]
pub enum Severity {
    Info,
    Low,
    Medium,
    High,
    Critical,
}

impl Severity {
    /// Position of the level in the order `Info < Low < Medium < High < Critical`.
    pub open spec fn level(self) -> nat {
        match self {
            Severity::Info => 0,
            Severity::Low => 1,
            Severity::Medium => 2,
            Severity::High => 3,
            Severity::Critical => 4,
        }
    }

    /// `self` is `floor` or more urgent.
    pub open spec fn at_least(self, floor: Severity) -> bool {
        self.level() >= floor.level()
    }

    /// The order of two levels, by their positions.
    pub open spec fn order(self, other: Severity) -> Ordering {
        if self.level() < other.level() {
            Ordering::Less
        } else if self.level() == other.level() {
            Ordering::Equal
        } else {
            Ordering::Greater
        }
    }

    /// Position of the level as a number, `0` for `Info` up to `4` for `Critical`.
    pub fn rank(self) -> (r: u8)
        ensures
            r == self.level(),
    {
        match self {
            Severity::Info => 0,
            Severity::Low => 1,
            Severity::Medium => 2,
            Severity::High => 3,
            Severity::Critical => 4,
        }
    }

    /// Tests whether `self` is `floor` or more urgent.
    pub fn is_at_least(self, floor: Severity) -> (b: bool)
        ensures
            b == self.at_least(floor),
    {
        self.rank() >= floor.rank()
    }
}

impl PartialOrd for Severity {
    fn partial_cmp(&self, other: &Severity) -> (r: Option<Ordering>) {
        let a: u8 = self.rank();
        let b: u8 = other.rank();
        if a < b {
            Some(Ordering::Less)
        } else if a == b {
            Some(Ordering::Equal)
        } else {
            Some(Ordering::Greater)
        }
    }
}

impl PartialOrdSpecImpl for Severity {
    open spec fn obeys_partial_cmp_spec() -> bool {
        true
    }

    open spec fn partial_cmp_spec(&self, other: &Severity) -> Option<Ordering> {
        Some(self.order(*other))
    }
}

/// The order on levels is total: two levels compare equal only when they are
/// the same level, and swapping the operands reverses the result.
pub proof fn lemma_severity_order_total(a: Severity, b: Severity)
    ensures
        a.order(b) == Ordering::Equal <==> a == b,
        a.order(b) == Ordering::Less <==> b.order(a) == Ordering::Greater,
        a.at_least(b) <==> a.order(b) != Ordering::Less,
{
}

/// The order on levels is transitive.
pub proof fn lemma_severity_order_transitive(a: Severity, b: Severity, c: Severity)
    requires
        a.at_least(b),
        b.at_least(c),
    ensures
        a.at_least(c),
{
}

} // verus!
