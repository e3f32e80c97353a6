//! An executable the runner invokes.
use vstd::prelude::*;
use vstd::string::*;

verus! {

/// An executable the runner invokes.
///
/// The set is closed: Cassiopeia itself, the two container engines that can carry it, and the shell
/// that runs preparation steps.
#[derive(Debug, Clone, Copy, PartialEq, Eq, Structural)]
pub enum ProgramName {
    /// The Cassiopeia binary on the host's `PATH`.
    Cassiopeia,
    /// The Docker CLI.
    Docker,
    /// The Podman CLI.
    Podman,
    /// The shell that runs preparation steps and dataset commands.
    Sh,
}

/// The name a program is invoked by.
pub open spec fn program_text(program: ProgramName) -> Seq<char> {
    match program {
        ProgramName::Cassiopeia => seq!['c', 'a', 's', 's', 'i', 'o', 'p', 'e', 'i', 'a'],
        ProgramName::Docker => seq!['d', 'o', 'c', 'k', 'e', 'r'],
        ProgramName::Podman => seq!['p', 'o', 'd', 'm', 'a', 'n'],
        ProgramName::Sh => seq!['s', 'h'],
    }
}

impl ProgramName {
    /// The name the program is invoked by.
    pub fn to_string(&self) -> (text: String)
        ensures
            text@ == program_text(*self),
    {
        match self {
            ProgramName::Cassiopeia => {
                proof { reveal_strlit("cassiopeia"); }
                "cassiopeia".to_owned()
            },
            ProgramName::Docker => {
                proof { reveal_strlit("docker"); }
                "docker".to_owned()
            },
            ProgramName::Podman => {
                proof { reveal_strlit("podman"); }
                "podman".to_owned()
            },
            ProgramName::Sh => {
                proof { reveal_strlit("sh"); }
                "sh".to_owned()
            },
        }
    }
}

} // verus!
