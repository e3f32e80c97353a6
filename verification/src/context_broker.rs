//! The broker an example delivers to, and the compose stack that provides it.
use vstd::prelude::*;
use url::Url;

verus! {

/// The broker an example delivers to, and the compose stack that provides it.
///
/// A block of its own rather than a flag in `[requirements]`, because a broker is not a yes-or-no
/// question: the runner has to know which compose file starts it and where it answers, and a flag
/// could say neither.
#[derive(Debug)]
pub struct ContextBroker {
    /// The compose file that starts the broker, relative to the example directory. Examples that
    /// need the same broker point at one stack rather than each shipping a copy of it.
    pub compose: String,
    /// Where the broker answers, matching the URL the example's manifest delivers to.
    pub url: Url,
    /// The `@context` the run's entities were written under, for an example that asserts on a
    /// whole entity type.
    ///
    /// A broker expands the type in a query against whichever context the query carries, and
    /// against the core context a published model's short name expands to something no entity
    /// written under that model's own context matches (ETSI GS CIM 009 v1.9.1, clause 5.5.7). An
    /// assertion that names one entity by identifier needs no context, which is why this is
    /// optional rather than required.
    pub context: Option<Url>,
}

} // verus!
