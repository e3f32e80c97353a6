//! One token of a Cassiopeia command line.
use vstd::prelude::*;
use crate::text::{has_prefix, starts_with};

verus! {

/// One token of a Cassiopeia command line: a subcommand, a long flag, or a flag's value.
///
/// Descriptors declare the invocation token by token rather than as one string, because the runner
/// executes those tokens directly and the page renders the same tokens as text.
#[derive(Debug, Clone, PartialEq, Eq)]
pub struct CommandLineToken(String);

/// The part a token plays in a rendered command line.
#[derive(Debug, Clone, Copy, PartialEq, Eq, Structural)]
pub enum TokenRole {
    /// A long flag, which opens a line of its own.
    Flag,
    /// A subcommand or a flag's value, which joins the flag before it or stands alone.
    Value,
}

/// Why a token could not be read.
#[derive(Debug, PartialEq, Eq)]
pub enum CommandLineTokenError {
    /// An empty argument reaches the program as an empty string, which no Cassiopeia flag accepts.
    Empty,
}

/// The role a token with this text plays.
pub open spec fn role_of(text: Seq<char>) -> TokenRole {
    if has_prefix(text, seq!['-', '-']) { TokenRole::Flag } else { TokenRole::Value }
}

impl View for CommandLineToken {
    type V = Seq<char>;

    closed spec fn view(&self) -> Seq<char> {
        self.0@
    }
}

impl CommandLineToken {
    /// The token as it reaches the program.
    pub fn as_str(&self) -> (text: &str)
        ensures
            text@ == self@,
    {
        self.0.as_str()
    }

    /// What the token does to the line it is rendered on.
    pub fn role(&self) -> (role: TokenRole)
        ensures
            role == role_of(self@),
    {
        let flag = "--";
        proof {
            reveal_strlit("--");
            assert(flag@ =~= seq!['-', '-']);
        }
        if starts_with(self.0.as_str(), flag) {
            TokenRole::Flag
        } else {
            TokenRole::Value
        }
    }

    /// Reads a token, refusing the empty one.
    pub fn try_from(value: String) -> (token: Result<CommandLineToken, CommandLineTokenError>)
        ensures
            value@.len() == 0 <==> token is Err,
            token matches Ok(t) ==> t@ == value@,
    {
        if value.as_str().is_empty() {
            Err(CommandLineTokenError::Empty)
        } else {
            Ok(CommandLineToken(value))
        }
    }
}

} // verus!
