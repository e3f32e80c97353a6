//! A command the shell runs in an example directory.
use vstd::prelude::*;
use crate::text::{blank, is_blank};

verus! {

/// A command the shell runs in an example directory.
///
/// Preparation steps and the datasets a plain GET cannot fetch are both written this way, so that
/// the page, the runner, and continuous integration all name the same command.
#[derive(Debug, PartialEq, Eq)]
pub struct ShellCommand(String);

/// Why a shell command could not be read.
#[derive(Debug, PartialEq, Eq)]
pub enum ShellCommandError {
    /// A step that runs nothing is a step that should not be declared.
    Empty,
}

impl View for ShellCommand {
    type V = Seq<char>;

    closed spec fn view(&self) -> Seq<char> {
        self.0@
    }
}

impl Clone for ShellCommand {
    fn clone(&self) -> (copy: Self)
        ensures
            copy == *self,
    {
        ShellCommand(self.0.clone())
    }
}

impl ShellCommand {
    /// Every value holds text that does not trim down to nothing.
    pub closed spec fn well_formed(self) -> bool {
        !is_blank(self.0@)
    }

    /// The text as it is printed.
    pub fn to_string(&self) -> (text: String)
        ensures
            text@ == self@,
    {
        self.0.clone()
    }

    /// Reads the text, refusing one that is blank once trimmed.
    pub fn try_from(value: String) -> (read: Result<ShellCommand, ShellCommandError>)
        ensures
            match read {
                Ok(read) => !is_blank(value@) && read@ == value@ && read.well_formed(),
                Err(error) => is_blank(value@) && error == ShellCommandError::Empty,
            },
    {
        if blank(value.as_str()) {
            Err(ShellCommandError::Empty)
        } else {
            Ok(ShellCommand(value))
        }
    }

    /// The command as the shell receives it.
    pub fn as_str(&self) -> (text: &str)
        ensures
            text@ == self@,
    {
        self.0.as_str()
    }
}

} // verus!
