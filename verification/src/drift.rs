//! What a run found that did not stop it.
use vstd::prelude::*;
use crate::assertion_target::{AssertionTarget, target_text};
use crate::entity_id::EntityId;
use crate::example_name::ExampleName;
use crate::text::{decimal, decimal_text, seq_join};

verus! {

/// One difference a run found that did not stop it.
///
/// A drift is a third outcome beside passing and failing, not a kind of failure: the example still
/// works, and the publisher has moved under it. Keeping it out of
/// [`crate::verification::VerificationError`] is what stops a matrix from turning red for three new
/// airports and training a reader to ignore red.
#[derive(Debug, PartialEq, Eq)]
pub struct Drift {
    /// The example the run belongs to.
    pub example: ExampleName,
    /// What was checked.
    pub target: AssertionTarget,
    /// What no longer matches.
    pub kind: DriftKind,
}

/// What a drift is about, with the figure the example declares beside what the run found.
#[derive(Debug, PartialEq, Eq)]
pub enum DriftKind {
    /// The run produced a different number of entities than the example declares.
    EntityCount {
        /// What the descriptor states.
        declared: usize,
        /// What the run produced.
        found: usize,
    },
    /// An identifier the page quotes is no longer among the entities.
    MissingEntity {
        /// The identifier the descriptor names.
        declared: EntityId,
    },
}

/// Every drift one run found, in the order the assertions were checked.
#[derive(Debug, PartialEq, Eq)]
pub struct DriftLog(Vec<Drift>);

/// What a drift says about its target.
pub open spec fn kind_text(kind: DriftKind) -> Seq<char> {
    match kind {
        DriftKind::EntityCount { declared, found } => "holds "@ + decimal(found as nat) + " entities, and the example declares "@
            + decimal(declared as nat),
        DriftKind::MissingEntity { declared } => "no longer holds "@ + declared@,
    }
}

/// A drift as one line of a report: the example, the target, and what moved.
pub open spec fn drift_text(drift: Drift) -> Seq<char> {
    drift.example@ + ": "@ + target_text(drift.target) + " "@ + kind_text(drift.kind)
}

/// The lines of every finding in a log.
pub open spec fn drift_lines(findings: Seq<Drift>) -> Seq<Seq<char>> {
    findings.map_values(|drift: Drift| drift_text(drift))
}

impl DriftKind {
    /// What the drift says about its target.
    pub fn to_string(&self) -> (text: String)
        ensures
            text@ == kind_text(*self),
    {
        match self {
            DriftKind::EntityCount { declared, found } => {
                let mut text = "holds ".to_owned();
                text.append(decimal_text(*found).as_str());
                text.append(" entities, and the example declares ");
                text.append(decimal_text(*declared).as_str());
                text
            },
            DriftKind::MissingEntity { declared } => {
                let mut text = "no longer holds ".to_owned();
                text.append(declared.as_str());
                text
            },
        }
    }
}

impl Clone for DriftKind {
    fn clone(&self) -> (copy: Self)
        ensures
            copy == *self,
    {
        match self {
            DriftKind::EntityCount { declared, found } => DriftKind::EntityCount { declared: *declared, found: *found },
            DriftKind::MissingEntity { declared } => DriftKind::MissingEntity { declared: declared.clone() },
        }
    }
}

impl Clone for Drift {
    fn clone(&self) -> (copy: Self)
        ensures
            copy == *self,
    {
        Drift { example: self.example.clone(), target: self.target.clone(), kind: self.kind.clone() }
    }
}

impl Drift {
    /// The drift as one line of a report.
    pub fn to_string(&self) -> (text: String)
        ensures
            text@ == drift_text(*self),
    {
        let mut text = self.example.to_string();
        text.append(": ");
        text.append(self.target.to_string().as_str());
        text.append(" ");
        text.append(self.kind.to_string().as_str());
        text
    }
}

impl View for DriftLog {
    type V = Seq<Drift>;

    closed spec fn view(&self) -> Seq<Drift> {
        self.0@
    }
}

impl Default for DriftLog {
    /// A log with nothing in it.
    fn default() -> (log: Self)
        ensures
            log@ == Seq::<Drift>::empty(),
    {
        DriftLog(Vec::new())
    }
}

impl DriftLog {
    /// Adds one finding.
    pub fn record(&mut self, drift: Drift)
        ensures
            final(self)@ == old(self)@.push(drift),
    {
        self.0.push(drift);
    }

    /// Adds everything another log holds, leaving that log consumed.
    pub fn absorb(&mut self, other: DriftLog)
        ensures
            final(self)@ == old(self)@ + other@,
    {
        let mut other = other;
        self.0.append(&mut other.0);
    }

    /// Whether the run found nothing worth reporting.
    pub fn is_empty(&self) -> (empty: bool)
        ensures
            empty == (self@.len() == 0),
    {
        self.0.len() == 0
    }

    /// The findings, in the order they were recorded.
    pub fn findings(&self) -> (findings: &Vec<Drift>)
        ensures
            findings@ == self@,
    {
        &self.0
    }

    /// Every finding, one line each.
    pub fn to_string(&self) -> (text: String)
        ensures
            text@ == seq_join(drift_lines(self@), "\n"@),
    {
        let mut lines: Vec<String> = Vec::new();
        let mut i: usize = 0;
        while i < self.0.len()
            invariant
                i <= self.0.len(),
                lines@.len() == i,
                forall|j: int| 0 <= j < i ==> #[trigger] lines@[j]@ == drift_text(self.0@[j]),
            decreases self.0.len() - i,
        {
            lines.push(self.0[i].to_string());
            i += 1;
        }
        assert(crate::text::texts(lines@) =~= drift_lines(self@));
        crate::text::join(&lines, "\n")
    }
}

/// Recording a finding and then absorbing another log keeps both, first the recorded one.
pub proof fn lemma_absorbing_keeps_every_finding(log: Seq<Drift>, drift: Drift, other: Seq<Drift>)
    ensures
        (log.push(drift) + other).len() == log.len() + 1 + other.len(),
        (log.push(drift) + other)[log.len() as int] == drift,
        forall|i: int| 0 <= i < other.len() ==> (log.push(drift) + other)[log.len() + 1 + i] == other[i],
{
}

} // verus!
