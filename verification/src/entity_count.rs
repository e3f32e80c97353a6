//! How many entities an output has to hold.
use vstd::prelude::*;
use vstd::string::*;

verus! {

/// How many entities an output has to hold for a run to be considered correct.
///
/// The choice is about the claim, not about the source. An exact figure is a claim that the run
/// produces precisely this many entities, which is worth making whenever the number follows from
/// the mapping: a fixed file's rows, or the single entity a whole file merges into. A floor is a
/// claim that the run produces at least this many, which is what a feed whose size nobody controls
/// admits. Whether a difference from the declared figure fails the run or is only reported is a
/// separate question, answered by the datasets' [`crate::volatility::Volatility`].
#[derive(Debug, Clone, Copy, PartialEq, Eq, Structural)]
pub enum EntityCount {
    /// Exactly this many.
    Exactly(usize),
    /// At least this many.
    AtLeast(usize),
}

/// Whether a found count is near enough to the declared figure for a publisher's edits to explain
/// the difference.
///
/// This is the guard rail under the frozen-live rule: it is what keeps a live source from excusing
/// a mapping that has stopped producing entities at all.
#[derive(Debug, Clone, Copy, PartialEq, Eq, Hash, Structural)]
pub enum Plausibility {
    /// Within the guard rail, so a publisher editing the source could have got here.
    Churnable,
    /// Outside it. No publisher halves or doubles a dataset between two runs, so a figure this far
    /// out is a mapping that stopped working rather than a source that moved.
    Implausible,
}

/// Twice a count, held at the largest count a machine word can carry.
pub open spec fn doubled(count: usize) -> int {
    if 2 * count > usize::MAX { usize::MAX as int } else { 2 * count }
}

/// The declared figure, whichever way it is stated.
pub open spec fn declared_of(count: EntityCount) -> usize {
    match count {
        EntityCount::Exactly(expected) => expected,
        EntityCount::AtLeast(fewest) => fewest,
    }
}

/// Whether a run that found this many entities meets the count.
pub open spec fn meets(count: EntityCount, found: usize) -> bool {
    match count {
        EntityCount::Exactly(expected) => found == expected,
        EntityCount::AtLeast(fewest) => found >= fewest,
    }
}

/// Whether a found figure lies within the guard rail: for an exact figure, between half of it and
/// twice it; for a floor, at or above half of it.
pub open spec fn churnable(count: EntityCount, found: usize) -> bool {
    match count {
        EntityCount::Exactly(expected) => doubled(found) >= expected && found <= doubled(expected),
        EntityCount::AtLeast(fewest) => doubled(found) >= fewest,
    }
}

/// The plausibility of a found figure against a count.
pub open spec fn plausibility_of(count: EntityCount, found: usize) -> Plausibility {
    if churnable(count, found) { Plausibility::Churnable } else { Plausibility::Implausible }
}

/// Twice a count, saturating.
fn twice(count: usize) -> (result: usize)
    ensures
        result == doubled(count),
{
    if count > usize::MAX / 2 {
        usize::MAX
    } else {
        count * 2
    }
}

impl EntityCount {
    /// The declared figure, whichever way it is stated.
    pub fn declared(self) -> (figure: usize)
        ensures
            figure == declared_of(self),
    {
        match self {
            EntityCount::Exactly(expected) => expected,
            EntityCount::AtLeast(fewest) => fewest,
        }
    }

    /// Whether a run that produced this many entities satisfies the count.
    pub fn satisfied_by(self, found: usize) -> (satisfied: bool)
        ensures
            satisfied == meets(self, found),
    {
        match self {
            EntityCount::Exactly(expected) => found == expected,
            EntityCount::AtLeast(fewest) => found >= fewest,
        }
    }

    /// Whether a count that is not satisfied is still close enough to be the publisher's doing.
    pub fn plausibility(self, found: usize) -> (plausibility: Plausibility)
        ensures
            plausibility == plausibility_of(self, found),
    {
        let churnable = match self {
            EntityCount::Exactly(expected) => twice(found) >= expected && found <= twice(expected),
            EntityCount::AtLeast(fewest) => twice(found) >= fewest,
        };
        if churnable {
            Plausibility::Churnable
        } else {
            Plausibility::Implausible
        }
    }
}

impl Plausibility {
    /// The plausibility as it is printed.
    pub fn to_string(&self) -> (text: String)
        ensures
            text@ == match self {
                Plausibility::Churnable => "churnable"@,
                Plausibility::Implausible => "implausible"@,
            },
    {
        match self {
            Plausibility::Churnable => "churnable".to_owned(),
            Plausibility::Implausible => "implausible".to_owned(),
        }
    }
}

/// A run that meets its count is always within the guard rail, so a satisfied count can never be
/// taken for a broken mapping.
pub proof fn lemma_satisfied_is_churnable(count: EntityCount, found: usize)
    requires
        meets(count, found),
    ensures
        plausibility_of(count, found) == Plausibility::Churnable,
{
}

/// The guard rail of a floor only has a lower side: finding more entities never makes a
/// plausible figure implausible.
pub proof fn lemma_floor_has_no_upper_rail(fewest: usize, found: usize, more: usize)
    requires
        found <= more,
        plausibility_of(EntityCount::AtLeast(fewest), found) == Plausibility::Churnable,
    ensures
        plausibility_of(EntityCount::AtLeast(fewest), more) == Plausibility::Churnable,
{
}

/// The guard rail of an exact figure is an interval: every figure between two plausible ones is
/// plausible too.
pub proof fn lemma_exact_rail_is_an_interval(expected: usize, low: usize, found: usize, high: usize)
    requires
        low <= found <= high,
        plausibility_of(EntityCount::Exactly(expected), low) == Plausibility::Churnable,
        plausibility_of(EntityCount::Exactly(expected), high) == Plausibility::Churnable,
    ensures
        plausibility_of(EntityCount::Exactly(expected), found) == Plausibility::Churnable,
{
}

} // verus!
