//! The Cassiopeia invocation an example documents.
use vstd::prelude::*;
use crate::command_line_token::CommandLineToken;

verus! {

/// The Cassiopeia invocation an example documents.
#[derive(Debug)]
pub struct Run {
    /// Arguments passed to `cassiopeia`, starting with the subcommand. Paths are relative to the
    /// example directory, because the container runtime mounts that directory and nothing above it.
    pub args: Vec<CommandLineToken>,
}

} // verus!
