//! Where an assertion looks for the entities it checks.
use vstd::prelude::*;
use vstd::string::*;
use crate::data_model_name::DataModelName;
use crate::entity_id::EntityId;

verus! {

/// Where an assertion looks for the entities it checks.
///
/// A run either writes files or delivers to a broker, and both need the same claims made about
/// them: how many entities there are, and that the ones a page quotes are among them. Naming the
/// place as its own value keeps those claims in one shape instead of giving every assertion a file
/// it may not have.
#[derive(Debug, PartialEq, Eq)]
pub enum AssertionTarget {
    /// A JSON array the run wrote, relative to the example directory.
    File(String),
    /// Every entity of one type a broker holds.
    BrokerEntities(DataModelName),
    /// One folded `EntityTemporal` a broker holds at its temporal endpoint, which is where a series
    /// representation belongs (ETSI GS CIM 009 v1.9.1, clause 5.2.20).
    BrokerTemporal(EntityId),
}

/// A target as a sentence names it.
pub open spec fn target_text(target: AssertionTarget) -> Seq<char> {
    match target {
        AssertionTarget::File(path) => path@,
        AssertionTarget::BrokerEntities(model) => "the broker's "@ + model@ + " entities"@,
        AssertionTarget::BrokerTemporal(id) => id@ + " at the broker's temporal endpoint"@,
    }
}

impl Clone for AssertionTarget {
    fn clone(&self) -> (copy: Self)
        ensures
            copy == *self,
    {
        match self {
            AssertionTarget::File(path) => AssertionTarget::File(path.clone()),
            AssertionTarget::BrokerEntities(model) => AssertionTarget::BrokerEntities(model.clone()),
            AssertionTarget::BrokerTemporal(id) => AssertionTarget::BrokerTemporal(id.clone()),
        }
    }
}

impl AssertionTarget {
    /// The target as a sentence names it.
    pub fn to_string(&self) -> (text: String)
        ensures
            text@ == target_text(*self),
    {
        match self {
            AssertionTarget::File(path) => path.clone(),
            AssertionTarget::BrokerEntities(model) => {
                let mut text = "the broker's ".to_owned();
                text.append(model.as_str());
                text.append(" entities");
                text
            },
            AssertionTarget::BrokerTemporal(id) => {
                let mut text = id.as_str().to_owned();
                text.append(" at the broker's temporal endpoint");
                text
            },
        }
    }
}

} // verus!
