//! The ordered severity scale that every risk signal is measured on.

use core::cmp::Ordering;
use vstd::prelude::*;
use vstd::std_specs::cmp::PartialOrdSpec;

verus! {

/// Severity of a risk signal. The variants are listed from the least to the
/// most severe, and the order of the type is the order of that list.
#[derive(Debug, Clone, Copy, PartialEq, Eq, Hash, Ord, Structural)]
pub enum RiskLevel {
    Low,
    Medium,
    High,
    Critical,
}

impl PartialOrd for RiskLevel {
    fn partial_cmp(&self, other: &Self) -> (r: Option<Ordering>) {
        let a: u8 = self.rank();
        let b: u8 = other.rank();
        if a < b {
            Some(Ordering::Less)
        } else if a > b {
            Some(Ordering::Greater)
        } else {
            Some(Ordering::Equal)
        }
    }
}

impl vstd::std_specs::cmp::PartialOrdSpecImpl for RiskLevel {
    open spec fn obeys_partial_cmp_spec() -> bool {
        true
    }

    open spec fn partial_cmp_spec(&self, other: &Self) -> Option<Ordering> {
        if self.rank_spec() < other.rank_spec() {
            Some(Ordering::Less)
        } else if self.rank_spec() > other.rank_spec() {
            Some(Ordering::Greater)
        } else {
            Some(Ordering::Equal)
        }
    }
}

impl RiskLevel {
    /// Position of the level on the scale, counted from 1 for `Low`.
    pub open spec fn rank_spec(self) -> nat {
        match self {
            RiskLevel::Low => 1,
            RiskLevel::Medium => 2,
            RiskLevel::High => 3,
            RiskLevel::Critical => 4,
        }
    }

    /// The name of the level as it is written in tokens.
    pub open spec fn name_spec(self) -> Seq<char> {
        match self {
            RiskLevel::Low => "Low"@,
            RiskLevel::Medium => "Medium"@,
            RiskLevel::High => "High"@,
            RiskLevel::Critical => "Critical"@,
        }
    }

    /// The more severe of two levels.
    pub open spec fn max_spec(self, other: RiskLevel) -> RiskLevel {
        if other.rank_spec() > self.rank_spec() {
            other
        } else {
            self
        }
    }

    /// Whether `self` is strictly more severe than `limit`.
    pub open spec fn exceeds_spec(self, limit: RiskLevel) -> bool {
        self.rank_spec() > limit.rank_spec()
    }

    /// Position of the level on the scale, counted from 1 for `Low`.
    pub fn rank(self) -> (r: u8)
        ensures
            r == self.rank_spec(),
            1 <= r <= 4,
    {
        match self {
            RiskLevel::Low => 1,
            RiskLevel::Medium => 2,
            RiskLevel::High => 3,
            RiskLevel::Critical => 4,
        }
    }

    /// The level's name: `"Low"`, `"Medium"`, `"High"` or `"Critical"`.
    pub fn name(self) -> (s: &'static str)
        ensures
            s@ == self.name_spec(),
    {
        match self {
            RiskLevel::Low => "Low",
            RiskLevel::Medium => "Medium",
            RiskLevel::High => "High",
            RiskLevel::Critical => "Critical",
        }
    }

    /// The more severe of two levels; either one when they are equal.
    pub fn max(self, other: RiskLevel) -> (r: RiskLevel)
        ensures
            r == self.max_spec(other),
    {
        if other.rank() > self.rank() {
            other
        } else {
            self
        }
    }

    /// Whether `self` is strictly more severe than `limit`.
    pub fn exceeds(self, limit: RiskLevel) -> (r: bool)
        ensures
            r == self.exceeds_spec(limit),
    {
        self.rank() > limit.rank()
    }
}

/// The most severe level of a sequence; `Low`, the bottom of the scale, when
/// the sequence is empty.
pub open spec fn highest_of(levels: Seq<RiskLevel>) -> RiskLevel
    decreases levels.len(),
{
    if levels.len() == 0 {
        RiskLevel::Low
    } else {
        levels.last().max_spec(highest_of(levels.drop_last()))
    }
}

/// The order is strict and total: of two levels exactly one of "less",
/// "equal" and "greater" holds, and only a level itself has its rank.
pub proof fn lemma_order_is_total(a: RiskLevel, b: RiskLevel)
    ensures
        a.rank_spec() == b.rank_spec() <==> a == b,
        a.rank_spec() < b.rank_spec() || a == b || b.rank_spec() < a.rank_spec(),
        !(a.rank_spec() < b.rank_spec() && b.rank_spec() < a.rank_spec()),
{
}

/// The order is transitive.
pub proof fn lemma_order_is_transitive(a: RiskLevel, b: RiskLevel, c: RiskLevel)
    requires
        a.rank_spec() <= b.rank_spec(),
        b.rank_spec() <= c.rank_spec(),
    ensures
        a.rank_spec() <= c.rank_spec(),
{
}

/// The scale runs Low, Medium, High, Critical, each strictly below the next.
pub proof fn lemma_scale_is_strictly_increasing()
    ensures
        RiskLevel::Low.rank_spec() < RiskLevel::Medium.rank_spec(),
        RiskLevel::Medium.rank_spec() < RiskLevel::High.rank_spec(),
        RiskLevel::High.rank_spec() < RiskLevel::Critical.rank_spec(),
        RiskLevel::Low.partial_cmp_spec(&RiskLevel::Medium) == Some(Ordering::Less),
        RiskLevel::Medium.partial_cmp_spec(&RiskLevel::High) == Some(Ordering::Less),
        RiskLevel::High.partial_cmp_spec(&RiskLevel::Critical) == Some(Ordering::Less),
{
}

/// The maximum of two levels is one of them, is at least as severe as both,
/// and does not depend on the order of its arguments; taking it is
/// associative.
pub proof fn lemma_max_laws(a: RiskLevel, b: RiskLevel, c: RiskLevel)
    ensures
        a.max_spec(b) == a || a.max_spec(b) == b,
        a.rank_spec() <= a.max_spec(b).rank_spec(),
        b.rank_spec() <= a.max_spec(b).rank_spec(),
        a.max_spec(b) == b.max_spec(a),
        a.max_spec(b).max_spec(c) == a.max_spec(b.max_spec(c)),
        a.max_spec(a) == a,
{
}

/// The most severe level of a non-empty sequence occurs in it, and no level
/// in the sequence is more severe.
pub proof fn lemma_highest_is_greatest(levels: Seq<RiskLevel>)
    requires
        levels.len() > 0,
    ensures
        levels.contains(highest_of(levels)),
        forall|i: int| 0 <= i < levels.len() ==> (#[trigger] levels[i]).rank_spec() <= highest_of(levels).rank_spec(),
    decreases levels.len(),
{
    let rest = levels.drop_last();
    if rest.len() == 0 {
        assert(highest_of(rest) == RiskLevel::Low);
        assert(levels[levels.len() - 1] == levels.last());
    } else {
        lemma_highest_is_greatest(rest);
        let h = highest_of(rest);
        let j = choose|j: int| 0 <= j < rest.len() && rest[j] == h;
        assert(levels[j] == h);
        assert(levels[levels.len() - 1] == levels.last());
        assert forall|i: int| 0 <= i < levels.len() implies (#[trigger] levels[i]).rank_spec()
            <= highest_of(levels).rank_spec() by {
            if i < rest.len() {
                assert(rest[i] == levels[i]);
            }
        }
    }
}

/// The most severe level depends only on which levels are given and how
/// often, not on the order in which they are given.
pub proof fn lemma_highest_ignores_order(first: Seq<RiskLevel>, second: Seq<RiskLevel>)
    requires
        first.to_multiset() == second.to_multiset(),
    ensures
        highest_of(first) == highest_of(second),
{
    first.to_multiset_ensures();
    second.to_multiset_ensures();
    if first.len() == 0 {
        assert(second.len() == 0);
    } else {
        assert(second.len() > 0);
        lemma_highest_is_greatest(first);
        lemma_highest_is_greatest(second);
        let a = highest_of(first);
        let b = highest_of(second);
        assert(first.to_multiset().count(a) > 0);
        assert(second.contains(a));
        assert(second.to_multiset().count(b) > 0);
        assert(first.contains(b));
        lemma_order_is_total(a, b);
    }
}

} // verus!
