//! Everything an example declares about itself.
use vstd::prelude::*;
use crate::container_network::ContainerNetwork;
use crate::outside::{io_error_text, toml_error_text};
use crate::context_broker::ContextBroker;
use crate::dataset::Dataset;
use crate::example::Example;
use crate::output::Output;
use crate::poll_schedule::PollSchedule;
use crate::preparation::Preparation;
use crate::requirements::Requirements;
use crate::run::Run;

verus! {

/// The file every example directory declares itself in.
pub const DESCRIPTOR_FILE: &'static str = "example.toml";

/// Everything an example declares about itself: what it teaches, what it reads, what it runs, and
/// what the run has to produce.
#[derive(Debug)]
pub struct Descriptor {
    /// What the example teaches, and where the documentation site places it.
    pub example: Example,
    /// What the run needs beyond Cassiopeia itself.
    pub requirements: Requirements,
    /// The broker the run delivers to, for an example that writes to one instead of to files.
    pub context_broker: Option<ContextBroker>,
    /// The bound a scheduled run is given, for an example whose mapping repeats until it is
    /// interrupted.
    pub schedule: Option<PollSchedule>,
    /// Shell steps the dataset needs before Cassiopeia can read it, such as unzipping an archive
    /// or flattening an irregular source into a plain CSV.
    pub preparation: Vec<Preparation>,
    /// The Cassiopeia invocation, which both the runner and the page are derived from.
    pub run: Run,
    /// The files the example downloads before it runs.
    pub datasets: Vec<Dataset>,
    /// The files the run writes, and what has to be in them.
    pub outputs: Vec<Output>,
}

/// Why an example's descriptor could not be read.
#[derive(Debug)]
pub enum DescriptorError {
    /// The file is missing or unreadable.
    Unreadable {
        /// The descriptor that was looked for.
        path: String,
        /// The underlying filesystem failure.
        source: std::io::Error,
    },
    /// The file is not a valid descriptor.
    Malformed {
        /// The descriptor that was parsed.
        path: String,
        /// The parse failure, with its position in the file.
        source: toml::de::Error,
    },
}

/// The network a container run of an example needs: the host's exactly when it delivers to a
/// broker.
pub open spec fn network_of(descriptor: Descriptor) -> ContainerNetwork {
    if descriptor.context_broker is Some {
        ContainerNetwork::Host
    } else {
        ContainerNetwork::Isolated
    }
}

impl Descriptor {
    /// The network a container run of this example needs.
    ///
    /// A run that delivers to a broker published on a host port only reaches it when the container
    /// shares the host's network, because the URL its manifest names is `localhost`.
    pub fn network(&self) -> (network: ContainerNetwork)
        ensures
            network == network_of(*self),
    {
        if self.context_broker.is_some() {
            ContainerNetwork::Host
        } else {
            ContainerNetwork::Isolated
        }
    }
}

/// What a descriptor failure prints as, where `detail` is what the operating system's or the TOML
/// parser's own failure prints as.
pub open spec fn descriptor_message(error: DescriptorError, detail: Seq<char>) -> Seq<char> {
    match error {
        DescriptorError::Unreadable { path, .. } => "cannot read "@ + path@ + ": "@ + detail,
        DescriptorError::Malformed { path, .. } => path@ + " is not a valid example descriptor: "@ + detail,
    }
}

impl DescriptorError {
    /// What the failure prints as, given what the failure it wraps prints as.
    pub fn describe(&self, detail: &str) -> (text: String)
        ensures
            text@ == descriptor_message(*self, detail@),
    {
        let mut text = String::new();
        match self {
            DescriptorError::Unreadable { path, .. } => {
                text.append("cannot read ");
                text.append(path.as_str());
                text.append(": ");
                text.append(detail);
            },
            DescriptorError::Malformed { path, .. } => {
                text.append(path.as_str());
                text.append(" is not a valid example descriptor: ");
                text.append(detail);
            },
        }
        text
    }

    /// What the failure it wraps prints as, in that failure's own words.
    pub(crate) fn outside_detail(&self) -> String {
        match self {
            DescriptorError::Unreadable { source, .. } => io_error_text(source),
            DescriptorError::Malformed { source, .. } => toml_error_text(source),
        }
    }

    /// What the failure prints as, with the operating system's or the parser's words for what went
    /// wrong.
    pub fn to_string(&self) -> (text: String)
        ensures
            exists|detail: Seq<char>| text@ == descriptor_message(*self, detail),
    {
        let detail = self.outside_detail();
        let text = self.describe(detail.as_str());
        assert(text@ == descriptor_message(*self, detail@));
        text
    }
}

} // verus!
