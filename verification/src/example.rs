//! The `[example]` block: what an example teaches, and where it is placed.
use vstd::prelude::*;
use crate::data_model_name::DataModelName;
use crate::source_format::SourceFormat;

verus! {

/// The `[example]` block: what an example teaches, and where it is placed.
///
/// These are the keys the documentation site and the README index read. They say nothing about how
/// the example runs, which is why they sit apart from the blocks that do.
#[derive(Debug)]
pub struct Example {
    /// The page title, matching the H1 in `example.md`.
    pub title: String,
    /// Two or three words for the documentation sidebar.
    pub label: String,
    /// One sentence for the README index, phrased as what the example shows.
    pub summary: String,
    /// The source formats the example ingests.
    pub formats: Vec<SourceFormat>,
    /// The NGSI-LD models the run produces.
    pub models: Vec<DataModelName>,
}

} // verus!
