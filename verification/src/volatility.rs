//! Whether a dataset's publisher has finished with the file an example reads.
use vstd::prelude::*;
use vstd::string::*;
use crate::entity_count::Plausibility;

verus! {

/// Whether a dataset's publisher has finished with the file an example reads.
///
/// This is what separates a broken example from a moving source. A frozen file is a closed range, a
/// dated revision, or a dump nobody edits any more: its record count is a fact, and a run that
/// finds another number found a defect. A live file still grows or still accepts corrections, so
/// the same difference is the publisher at work and the example is still doing its job.
#[derive(Debug, Clone, Copy, PartialEq, Eq, Hash, Structural)]
pub enum Volatility {
    /// The publisher has closed the file: a dated revision, a finished range, or a dormant dump.
    Frozen,
    /// The publisher still edits or grows the file.
    Live,
}

/// What a difference between what an example declares and what a run found amounts to.
#[derive(Debug, Clone, Copy, PartialEq, Eq, Hash, Structural)]
pub enum Mismatch {
    /// The example no longer works, and the run has to fail.
    Broken,
    /// The publisher moved under a working example. Worth reporting, never worth failing on.
    Churn,
}

/// Only a near difference in a live source is churn; anything else is a defect.
pub open spec fn mismatch_of(volatility: Volatility, plausibility: Plausibility) -> Mismatch {
    if volatility == Volatility::Live && plausibility == Plausibility::Churnable {
        Mismatch::Churn
    } else {
        Mismatch::Broken
    }
}

/// An example is live when any of its datasets is, or when it declares none at all.
pub open spec fn combined_of(declared: Seq<Volatility>) -> Volatility {
    if declared.len() == 0 || declared.contains(Volatility::Live) {
        Volatility::Live
    } else {
        Volatility::Frozen
    }
}

impl Volatility {
    /// How a difference between a declared figure and a found one is reported.
    ///
    /// A figure far enough from the declared one is a broken mapping whatever the publisher does,
    /// so an implausible finding overrides the frozen-live distinction: no source halves or doubles
    /// itself between two runs of the same week.
    pub fn classify(self, plausibility: Plausibility) -> (mismatch: Mismatch)
        ensures
            mismatch == mismatch_of(self, plausibility),
    {
        match (self, plausibility) {
            (Volatility::Frozen, _) | (Volatility::Live, Plausibility::Implausible) => Mismatch::Broken,
            (Volatility::Live, Plausibility::Churnable) => Mismatch::Churn,
        }
    }

    /// The setting as a descriptor writes it.
    pub fn to_string(&self) -> (text: String)
        ensures
            text@ == match self {
                Volatility::Frozen => "frozen"@,
                Volatility::Live => "live"@,
            },
    {
        match self {
            Volatility::Frozen => "frozen".to_owned(),
            Volatility::Live => "live".to_owned(),
        }
    }
}

impl Mismatch {
    /// The outcome as it is printed.
    pub fn to_string(&self) -> (text: String)
        ensures
            text@ == match self {
                Mismatch::Broken => "broken"@,
                Mismatch::Churn => "churn"@,
            },
    {
        match self {
            Mismatch::Broken => "broken".to_owned(),
            Mismatch::Churn => "churn".to_owned(),
        }
    }
}

/// The volatility of a whole example, from what its datasets declare.
///
/// One live dataset is enough. A frozen source and a live one land in the same output file, so its
/// entity count moves with whichever of them the publisher is still editing. An example that
/// declares no dataset at all reads its input from a remote source as it runs, which nothing in the
/// descriptor pins, so it is live too.
pub fn combined(declared: &[Volatility]) -> (volatility: Volatility)
    ensures
        volatility == combined_of(declared@),
{
    if declared.len() == 0 {
        return Volatility::Live;
    }
    let mut i: usize = 0;
    while i < declared.len()
        invariant
            i <= declared.len(),
            forall|j: int| 0 <= j < i ==> declared@[j] == Volatility::Frozen,
        decreases declared.len() - i,
    {
        match declared[i] {
            Volatility::Live => {
                assert(declared@[i as int] == Volatility::Live);
                return Volatility::Live;
            },
            Volatility::Frozen => {},
        }
        i += 1;
    }
    assert(!declared@.contains(Volatility::Live));
    Volatility::Frozen
}

/// A frozen source never churns: every difference in one is a defect.
pub proof fn lemma_frozen_never_churns(plausibility: Plausibility)
    ensures
        mismatch_of(Volatility::Frozen, plausibility) == Mismatch::Broken,
{
}

/// An implausible finding is a defect whatever the source.
pub proof fn lemma_implausible_is_always_broken(volatility: Volatility)
    ensures
        mismatch_of(volatility, Plausibility::Implausible) == Mismatch::Broken,
{
}

/// Adding a dataset never makes a live example frozen, and a live dataset makes any example live.
pub proof fn lemma_one_live_dataset_suffices(declared: Seq<Volatility>, more: Volatility)
    ensures
        combined_of(declared) == Volatility::Live && declared.len() > 0 ==> combined_of(declared.push(more))
            == Volatility::Live,
        combined_of(declared.push(Volatility::Live)) == Volatility::Live,
{
    assert(declared.push(more).contains(more) || true);
    assert(declared.push(Volatility::Live)[declared.len() as int] == Volatility::Live);
    if declared.contains(Volatility::Live) {
        let k = choose|k: int| 0 <= k < declared.len() && declared[k] == Volatility::Live;
        assert(declared.push(more)[k] == Volatility::Live);
    }
}

} // verus!
