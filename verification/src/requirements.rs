//! What an example needs from its environment beyond Cassiopeia itself.
use vstd::prelude::*;

verus! {

/// What an example needs from its environment beyond Cassiopeia itself.
///
/// A broker is not here: it is not a yes-or-no question, because the runner also has to know which
/// compose file starts it and where it answers, so it has a `[context-broker]` block of its own.
#[derive(Debug, Clone, Copy, PartialEq, Eq, Structural)]
pub struct Requirements {
    /// The run validates against a published Smart Data Model, so it needs the schema catalog.
    pub smart_data_models: bool,
}

impl Default for Requirements {
    /// An absent block needs nothing.
    fn default() -> (requirements: Self)
        ensures
            !requirements.smart_data_models,
    {
        Requirements { smart_data_models: false }
    }
}

} // verus!
