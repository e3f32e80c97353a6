//! Whether a container run shares the host's network.
use vstd::prelude::*;
use vstd::string::*;

verus! {

/// Whether a container run shares the host's network.
#[derive(Debug, Clone, Copy, PartialEq, Eq, Structural)]
pub enum ContainerNetwork {
    /// The engine's own network. Nothing published on the host is reachable from inside the
    /// container, which is what every run that writes files wants.
    Isolated,
    /// The host's network, so a broker published on a host port answers at the same `localhost`
    /// URL inside the container as it does outside it. A run that delivers to a broker needs this,
    /// because the URL its manifest names is the one its page tells a reader to query by hand.
    Host,
}

/// The value a container engine takes for a network.
pub open spec fn network_text(network: ContainerNetwork) -> Seq<char> {
    match network {
        ContainerNetwork::Isolated => seq!['i', 's', 'o', 'l', 'a', 't', 'e', 'd'],
        ContainerNetwork::Host => seq!['h', 'o', 's', 't'],
    }
}

impl Default for ContainerNetwork {
    /// A run that needs no broker is isolated.
    fn default() -> (network: Self)
        ensures
            network == ContainerNetwork::Isolated,
    {
        ContainerNetwork::Isolated
    }
}

impl ContainerNetwork {
    /// The value a container engine takes.
    pub fn to_string(&self) -> (text: String)
        ensures
            text@ == network_text(*self),
    {
        match self {
            ContainerNetwork::Isolated => {
                proof { reveal_strlit("isolated"); }
                "isolated".to_owned()
            },
            ContainerNetwork::Host => {
                proof { reveal_strlit("host"); }
                "host".to_owned()
            },
        }
    }
}

} // verus!
