//! One thing a run produces, and the assertions that prove the run did what its page says.
use vstd::prelude::*;
use crate::assertion_target::{AssertionTarget, target_text};
use crate::data_model_name::DataModelName;
use crate::entity_count::EntityCount;
use crate::entity_id::EntityId;

verus! {

/// One thing a run produces, and the assertions that prove the run did what its page says.
#[derive(Debug)]
pub struct Output {
    /// Where the entities are looked for.
    pub target: AssertionTarget,
    /// How many of them there have to be.
    pub count: EntityCount,
    /// Identifiers that have to be present, chosen for the entities the page quotes.
    pub contains: Vec<EntityId>,
}

/// An `[[outputs]]` block as it is written in a descriptor.
///
/// Read into [`Output`] rather than used directly, because a block names one target out of three
/// and states its count as one of two keys, and only the conversion can hold either rule.
#[derive(Debug)]
pub struct OutputBlock {
    /// A file the run writes, relative to the example directory.
    pub file: Option<String>,
    /// A model whose entities the broker has to hold after the run.
    pub broker_entities: Option<DataModelName>,
    /// One folded `EntityTemporal` the broker has to hold after the run.
    pub broker_temporal: Option<EntityId>,
    /// Exactly how many entities the target holds.
    pub entities: Option<usize>,
    /// The fewest entities it may hold.
    pub at_least: Option<usize>,
    /// Identifiers that have to be present.
    pub contains: Vec<EntityId>,
}

/// Why an output block does not describe something checkable.
#[derive(Debug)]
pub enum OutputError {
    /// The block says nothing about where to look.
    NoTarget,
    /// The block names more than one place, which leaves it unclear which one the counts are about.
    SeveralTargets,
    /// The block states neither an exact count nor a floor, so a run producing nothing would pass.
    NoCount {
        /// What the block describes.
        target: AssertionTarget,
    },
    /// The block states both, which leaves it unclear which one a run has to meet.
    BothCounts {
        /// What the block describes.
        target: AssertionTarget,
    },
}

/// How many of the three targets a block names.
pub open spec fn named_targets(block: OutputBlock) -> int {
    (if block.file is Some { 1int } else { 0 }) + (if block.broker_entities is Some { 1int } else { 0 }) + (
    if block.broker_temporal is Some { 1int } else { 0 })
}

/// The one target a block names, when it names exactly one.
pub open spec fn target_of(block: OutputBlock) -> AssertionTarget
    recommends
        named_targets(block) == 1,
{
    match (block.file, block.broker_entities, block.broker_temporal) {
        (Some(file), _, _) => AssertionTarget::File(file),
        (None, Some(model), _) => AssertionTarget::BrokerEntities(model),
        (None, None, Some(id)) => AssertionTarget::BrokerTemporal(id),
        (None, None, None) => arbitrary(),
    }
}

/// The conversion of a block: one target, and one of the two counts.
pub open spec fn output_of(block: OutputBlock) -> Result<Output, OutputError> {
    if named_targets(block) == 0 {
        Err(OutputError::NoTarget)
    } else if named_targets(block) > 1 {
        Err(OutputError::SeveralTargets)
    } else {
        match (block.entities, block.at_least) {
            (Some(exact), None) => Ok(Output { target: target_of(block), count: EntityCount::Exactly(exact), contains: block.contains }),
            (None, Some(fewest)) => Ok(Output { target: target_of(block), count: EntityCount::AtLeast(fewest), contains: block.contains }),
            (Some(_), Some(_)) => Err(OutputError::BothCounts { target: target_of(block) }),
            (None, None) => Err(OutputError::NoCount { target: target_of(block) }),
        }
    }
}

impl Output {
    /// Reads a block, which has to name exactly one target and exactly one count.
    pub fn try_from(block: OutputBlock) -> (output: Result<Output, OutputError>)
        ensures
            output == output_of(block),
    {
        let ghost given = block;
        let OutputBlock { file, broker_entities, broker_temporal, entities, at_least, contains } = block;
        let target = match (file, broker_entities, broker_temporal) {
            (Some(file), None, None) => AssertionTarget::File(file),
            (None, Some(model), None) => AssertionTarget::BrokerEntities(model),
            (None, None, Some(id)) => AssertionTarget::BrokerTemporal(id),
            (None, None, None) => return Err(OutputError::NoTarget),
            (Some(_), Some(_), _) | (Some(_), None, Some(_)) | (None, Some(_), Some(_)) => return Err(
                OutputError::SeveralTargets,
            ),
        };
        assert(target == target_of(given));
        let count = match (entities, at_least) {
            (Some(exact), None) => EntityCount::Exactly(exact),
            (None, Some(fewest)) => EntityCount::AtLeast(fewest),
            (Some(_), Some(_)) => return Err(OutputError::BothCounts { target }),
            (None, None) => return Err(OutputError::NoCount { target }),
        };
        Ok(Output { target, count, contains })
    }
}

/// What a refused `[[outputs]]` block prints as.
pub open spec fn output_message(error: OutputError) -> Seq<char> {
    match error {
        OutputError::NoTarget => "an [[outputs]] block names nothing to check: give it a `file`, a `broker-entities`, or a `broker-temporal`"@,
        OutputError::SeveralTargets => "an [[outputs]] block names more than one of `file`, `broker-entities`, and `broker-temporal`: give each target a block of its own"@,
        OutputError::NoCount { target } => "the output "@ + target_text(target)
            + " has no entity count to check: give it an `entities` or an `at-least`"@,
        OutputError::BothCounts { target } => "the output "@ + target_text(target)
            + " states both `entities` and `at-least`: keep the one the source warrants"@,
    }
}

impl OutputError {
    /// What the failure prints as.
    pub fn to_string(&self) -> (text: String)
        ensures
            text@ == output_message(*self),
    {
        let mut text = String::new();
        match self {
            OutputError::NoTarget => {
                text.append("an [[outputs]] block names nothing to check: give it a `file`, a `broker-entities`, or a `broker-temporal`");
            },
            OutputError::SeveralTargets => {
                text.append("an [[outputs]] block names more than one of `file`, `broker-entities`, and `broker-temporal`: give each target a block of its own");
            },
            OutputError::NoCount { target } => {
                text.append("the output ");
                text.append(target.to_string().as_str());
                text.append(" has no entity count to check: give it an `entities` or an `at-least`");
            },
            OutputError::BothCounts { target } => {
                text.append("the output ");
                text.append(target.to_string().as_str());
                text.append(" states both `entities` and `at-least`: keep the one the source warrants");
            },
        }
        text
    }
}

} // verus!
