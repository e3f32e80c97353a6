//! How a scheduled run, bounded by its window, is read.
use vstd::prelude::*;
use crate::poll_schedule::PollSchedule;
use crate::broker_stack::{exit_description, exit_text};
use crate::outside::{errno_text, io_error_text};
use crate::program_name::{ProgramName, program_text};
use crate::text::{decimal, decimal_text, signed_decimal, signed_decimal_text};

verus! {

/// The code a program stopped by an interrupt reports: the shell convention of 128 plus the signal
/// number. A container engine's client answers with it too, having been interrupted itself.
pub const INTERRUPTED: i32 = 130;

/// Why a scheduled run could not be bounded.
#[derive(Debug)]
pub enum ScheduledRunError {
    /// Cassiopeia or the container engine is not installed.
    NotExecutable {
        /// The program that was invoked.
        program: ProgramName,
        /// The underlying failure.
        source: std::io::Error,
    },
    /// The run stopped before its cycles had time to happen, which means the schedule stopped
    /// scheduling.
    StoppedEarly {
        /// The program that was invoked.
        program: ProgramName,
        /// Its exit code, when it had one.
        code: Option<i32>,
        /// How many cycles the descriptor allows.
        cycles: u32,
    },
    /// The run was interrupted and then failed on its way out.
    StoppedBadly {
        /// The program that was invoked.
        program: ProgramName,
        /// The code it exited with.
        code: i32,
    },
    /// The run ignored the interrupt.
    Unresponsive {
        /// The program that was invoked.
        program: ProgramName,
    },
    /// The run could not be waited for.
    Unreapable {
        /// The program that was invoked.
        program: ProgramName,
        /// The underlying failure.
        source: std::io::Error,
    },
    /// The interrupt could not be sent.
    Unsignalable {
        /// The failure the operating system reported.
        source: rustix::io::Errno,
    },
}

/// Whether a run that stopped after being interrupted stopped cleanly: a mapping that handles the
/// interrupt exits with 0, one that lets the signal terminate it has no exit code at all, and one
/// that reports the interrupt reports 130.
pub open spec fn clean_stop(code: Option<i32>) -> bool {
    match code {
        None => true,
        Some(c) => c == 0 || c == INTERRUPTED,
    }
}

/// How a run that stopped after being interrupted is read.
///
/// All three clean stops are the shutdown working. Any other code is the run failing.
pub fn classify(program: ProgramName, code: Option<i32>) -> (read: Result<(), ScheduledRunError>)
    ensures
        match read {
            Ok(()) => clean_stop(code),
            Err(ScheduledRunError::StoppedBadly { program: p, code: c }) => !clean_stop(code) && p == program
                && code == Some(c),
            Err(_) => false,
        },
{
    match code {
        None => Ok(()),
        Some(c) => {
            if c == 0 || c == INTERRUPTED {
                Ok(())
            } else {
                Err(ScheduledRunError::StoppedBadly { program, code: c })
            }
        },
    }
}

/// What the window a scheduled run is allowed says about it: a run that finished inside it, with
/// whatever code, stopped scheduling before its cycles were done. `exited` is the run's exit code
/// when it finished, and `None` when the window closed first, which is the run still polling and
/// due to be interrupted.
pub fn after_window(program: ProgramName, schedule: PollSchedule, exited: Option<Option<i32>>) -> (read: Result<
    (),
    ScheduledRunError,
>)
    ensures
        match read {
            Ok(()) => exited is None,
            Err(ScheduledRunError::StoppedEarly { program: p, code, cycles }) => exited == Some(code) && p == program
                && cycles == schedule.cycles,
            Err(_) => false,
        },
{
    match exited {
        None => Ok(()),
        Some(code) => Err(ScheduledRunError::StoppedEarly { program, code, cycles: schedule.cycles }),
    }
}

/// What the shutdown allowance says about an interrupted run: one that finished is read by its
/// code, and one still running ignored the interrupt. Nothing else can be learned from a run that
/// ignores an interrupt, so it is killed whatever the kill comes to.
pub fn after_interrupt(program: ProgramName, exited: Option<Option<i32>>) -> (read: Result<(), ScheduledRunError>)
    ensures
        match read {
            Ok(()) => exited matches Some(code) && clean_stop(code),
            Err(ScheduledRunError::StoppedBadly { program: p, code: c }) => exited == Some(Some(c)) && !clean_stop(
                Some(c),
            ) && p == program,
            Err(ScheduledRunError::Unresponsive { program: p }) => exited is None && p == program,
            Err(_) => false,
        },
{
    match exited {
        Some(code) => classify(program, code),
        None => Err(ScheduledRunError::Unresponsive { program }),
    }
}

/// What a bounded run's failure prints as, where `detail` is what the operating system's failure,
/// if any, prints as.
pub open spec fn scheduled_run_message(error: ScheduledRunError, detail: Seq<char>) -> Seq<char> {
    match error {
        ScheduledRunError::NotExecutable { program, .. } => "cannot execute "@ + program_text(program) + ": "@ + detail,
        ScheduledRunError::StoppedEarly { program, code, cycles } => program_text(program) + " stopped with "@
            + exit_text(code) + " before its "@ + decimal(cycles as nat) + " cycles were done"@,
        ScheduledRunError::StoppedBadly { program, code } => program_text(program) + " exited with "@
            + signed_decimal(code as int) + " after it was interrupted"@,
        ScheduledRunError::Unresponsive { program } => program_text(program)
            + " did not stop when it was interrupted, and had to be killed"@,
        ScheduledRunError::Unreapable { program, .. } => "cannot wait for "@ + program_text(program) + ": "@ + detail,
        ScheduledRunError::Unsignalable { .. } => "cannot interrupt the run: "@ + detail,
    }
}

/// Whether a bounded run's failure wraps one of the operating system's, whose words come from
/// outside the library.
pub open spec fn scheduled_run_wraps_outside(error: ScheduledRunError) -> bool {
    error is NotExecutable || error is Unreapable || error is Unsignalable
}

impl ScheduledRunError {
    /// What the failure prints as, given what the operating system's failure, if any, prints as.
    pub fn describe(&self, detail: &str) -> (text: String)
        ensures
            text@ == scheduled_run_message(*self, detail@),
    {
        let mut text = String::new();
        match self {
            ScheduledRunError::NotExecutable { program, .. } => {
                text.append("cannot execute ");
                text.append(program.to_string().as_str());
                text.append(": ");
                text.append(detail);
            },
            ScheduledRunError::StoppedEarly { program, code, cycles } => {
                text.append(program.to_string().as_str());
                text.append(" stopped with ");
                text.append(exit_description(*code).as_str());
                text.append(" before its ");
                text.append(decimal_text(*cycles as usize).as_str());
                text.append(" cycles were done");
            },
            ScheduledRunError::StoppedBadly { program, code } => {
                text.append(program.to_string().as_str());
                text.append(" exited with ");
                text.append(signed_decimal_text(*code).as_str());
                text.append(" after it was interrupted");
            },
            ScheduledRunError::Unresponsive { program } => {
                text.append(program.to_string().as_str());
                text.append(" did not stop when it was interrupted, and had to be killed");
            },
            ScheduledRunError::Unreapable { program, .. } => {
                text.append("cannot wait for ");
                text.append(program.to_string().as_str());
                text.append(": ");
                text.append(detail);
            },
            ScheduledRunError::Unsignalable { .. } => {
                text.append("cannot interrupt the run: ");
                text.append(detail);
            },
        }
        text
    }

    /// What the operating system's failure, if any, prints as; nothing for a failure of the run's
    /// own.
    pub(crate) fn outside_detail(&self) -> (detail: String)
        ensures
            !scheduled_run_wraps_outside(*self) ==> detail@ == Seq::<char>::empty(),
    {
        match self {
            ScheduledRunError::NotExecutable { source, .. } => io_error_text(source),
            ScheduledRunError::Unreapable { source, .. } => io_error_text(source),
            ScheduledRunError::Unsignalable { source } => errno_text(source),
            _ => String::new(),
        }
    }

    /// What the failure prints as: exactly for how the run behaved, and with the operating system's
    /// words where it refused to start, reap, or signal the run.
    pub fn to_string(&self) -> (text: String)
        ensures
            exists|detail: Seq<char>| text@ == scheduled_run_message(*self, detail),
            !scheduled_run_wraps_outside(*self) ==> text@ == scheduled_run_message(*self, Seq::empty()),
    {
        let detail = self.outside_detail();
        let text = self.describe(detail.as_str());
        assert(text@ == scheduled_run_message(*self, detail@));
        text
    }
}

} // verus!
