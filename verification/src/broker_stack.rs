//! A compose stack brought up for one run and taken down with it.
use vstd::prelude::*;
use crate::broker::{BrokerError, broker_message};
use crate::outside::io_error_text;
use crate::program_name::{ProgramName, program_text};
use crate::text::{signed_decimal, signed_decimal_text};

verus! {

/// Bringing the stack up in the background, waiting for what does declare a healthcheck.
pub const UP: [&'static str; 3] = ["up", "-d", "--wait"];

/// Taking it down, discarding the database volume so the next run starts from nothing.
pub const DOWN: [&'static str; 2] = ["down", "-v"];

/// A compose stack brought up for one run and taken down with it.
///
/// A run holds the stack for as long as the mapping runs and takes it down afterwards, whether the
/// mapping succeeded or failed, because a mapping that fails has to leave as little behind as one
/// that succeeds.
#[derive(Debug)]
pub struct BrokerStack {
    /// The engine that runs compose.
    pub engine: ProgramName,
    /// The example directory the compose file is named relative to.
    pub directory: String,
    /// The compose file the stack came up from.
    pub compose: String,
}

/// Why a broker stack could not be run.
#[derive(Debug)]
pub enum BrokerStackError {
    /// The container engine is not installed.
    NotExecutable {
        /// The engine that was invoked.
        program: ProgramName,
        /// The underlying failure.
        source: std::io::Error,
    },
    /// Compose itself failed.
    ComposeFailed {
        /// The compose file it was given.
        compose: String,
        /// Its exit code, when it had one.
        code: Option<i32>,
    },
    /// The stack came up, and the broker never started serving.
    Unready(BrokerError),
}

/// The texts of some string slices.
pub open spec fn words(list: Seq<&str>) -> Seq<Seq<char>> {
    list.map_values(|s: &str| s@)
}

/// The arguments one compose subcommand is given against a stack's file.
pub open spec fn compose_arguments_of(compose: Seq<char>, subcommand: Seq<Seq<char>>) -> Seq<Seq<char>> {
    seq!["compose"@, "--file"@, compose] + subcommand
}

/// The arguments that run one compose subcommand against the stack's file.
pub fn compose_arguments(stack: &BrokerStack, subcommand: &[&str]) -> (arguments: Vec<String>)
    ensures
        crate::text::texts(arguments@) == compose_arguments_of(stack.compose@, words(subcommand@)),
{
    let mut arguments: Vec<String> = Vec::new();
    arguments.push("compose".to_owned());
    arguments.push("--file".to_owned());
    arguments.push(stack.compose.clone());
    let mut i: usize = 0;
    while i < subcommand.len()
        invariant
            i <= subcommand@.len(),
            crate::text::texts(arguments@) == compose_arguments_of(stack.compose@, words(subcommand@.take(i as int))),
        decreases subcommand.len() - i,
    {
        let ghost before = crate::text::texts(arguments@);
        arguments.push(subcommand[i].to_owned());
        assert(crate::text::texts(arguments@) =~= before.push(subcommand@[i as int]@));
        assert(words(subcommand@.take(i + 1)) =~= words(subcommand@.take(i as int)).push(subcommand@[i as int]@));
        i += 1;
    }
    assert(subcommand@.take(subcommand@.len() as int) =~= subcommand@);
    arguments
}

/// What a compose invocation's exit code says: only a zero exit is success, and any other stop,
/// a signal among them, is compose failing for the stack's file.
pub fn compose_outcome(stack: &BrokerStack, code: Option<i32>) -> (outcome: Result<(), BrokerStackError>)
    ensures
        match outcome {
            Ok(()) => code == Some(0i32),
            Err(BrokerStackError::ComposeFailed { compose, code: c }) => code != Some(0i32) && c == code && compose
                == stack.compose,
            Err(_) => false,
        },
{
    match code {
        Some(0) => Ok(()),
        _ => Err(BrokerStackError::ComposeFailed { compose: stack.compose.clone(), code }),
    }
}

/// An exit code as a failure names it: the code, or "a signal" when there was none.
pub open spec fn exit_text(code: Option<i32>) -> Seq<char> {
    match code {
        Some(c) => signed_decimal(c as int),
        None => "a signal"@,
    }
}

/// An exit code as a failure names it.
pub fn exit_description(code: Option<i32>) -> (text: String)
    ensures
        text@ == exit_text(code),
{
    match code {
        Some(c) => signed_decimal_text(c),
        None => "a signal".to_owned(),
    }
}

/// What a broker stack failure prints as, where `detail` is what the operating-system or transport
/// failure it wraps, if any, prints as.
pub open spec fn stack_message(error: BrokerStackError, detail: Seq<char>) -> Seq<char> {
    match error {
        BrokerStackError::NotExecutable { program, source } => "cannot execute "@ + program_text(program) + ": "@
            + detail,
        BrokerStackError::ComposeFailed { compose, code } => "compose exited with "@ + exit_text(code) + " for "@
            + compose@,
        BrokerStackError::Unready(error) => broker_message(error, detail),
    }
}

/// Whether a broker stack failure wraps an operating-system or transport failure, whose words come
/// from outside the library.
pub open spec fn stack_wraps_outside_text(error: BrokerStackError) -> bool {
    match error {
        BrokerStackError::NotExecutable { .. } => true,
        BrokerStackError::ComposeFailed { .. } => false,
        BrokerStackError::Unready(error) => error is Unreachable,
    }
}

impl BrokerStackError {
    /// What the failure prints as, given what the failure it wraps, if any, prints as.
    pub fn describe(&self, detail: &str) -> (text: String)
        ensures
            text@ == stack_message(*self, detail@),
    {
        match self {
            BrokerStackError::NotExecutable { program, .. } => {
                let mut text = String::new();
                text.append("cannot execute ");
                text.append(program.to_string().as_str());
                text.append(": ");
                text.append(detail);
                text
            },
            BrokerStackError::ComposeFailed { compose, code } => {
                let mut text = String::new();
                text.append("compose exited with ");
                text.append(exit_description(*code).as_str());
                text.append(" for ");
                text.append(compose.as_str());
                text
            },
            BrokerStackError::Unready(error) => error.describe(detail),
        }
    }

    /// What the operating system's or the transport's failure, if any, prints as; nothing for a
    /// failure of the library's own.
    pub(crate) fn outside_detail(&self) -> (detail: String)
        ensures
            !stack_wraps_outside_text(*self) ==> detail@ == Seq::<char>::empty(),
    {
        match self {
            BrokerStackError::NotExecutable { source, .. } => io_error_text(source),
            BrokerStackError::Unready(error) => error.outside_detail(),
            BrokerStackError::ComposeFailed { .. } => String::new(),
        }
    }

    /// What the failure prints as. A failure of the operating system or of the transport is
    /// described in the words its own `Display` gives it; every other failure is described exactly.
    pub fn to_string(&self) -> (text: String)
        ensures
            exists|detail: Seq<char>| text@ == stack_message(*self, detail),
            !stack_wraps_outside_text(*self) ==> text@ == stack_message(*self, Seq::empty()),
    {
        let detail = self.outside_detail();
        let text = self.describe(detail.as_str());
        assert(text@ == stack_message(*self, detail@));
        text
    }
}

} // verus!
