//! A shell step that turns a downloaded file into something Cassiopeia can read.
use vstd::prelude::*;
use crate::shell_command::ShellCommand;

verus! {

/// A shell step that turns a downloaded file into something Cassiopeia can read.
///
/// Kept in the descriptor rather than in a script beside the mapping so that the page, the runner,
/// and continuous integration all name the same step.
#[derive(Debug)]
pub struct Preparation {
    /// What the step does, printed while it runs.
    pub description: String,
    /// The command, run by the shell in the example directory.
    pub command: ShellCommand,
}

} // verus!
