//! Finding out whether the assembler is installed.
//!
//! An assembler that is not installed is no error: the launcher then has
//! nothing to do and ends with success.

use vstd::prelude::*;
use crate::protocol::{Event, Failure};
use crate::toolchain::{Command, CommandView, ASSEMBLER};

verus! {

/// The program that is asked whether the assembler is on the search path.
pub const LOCATOR: &'static str = "which";

/// `which nasm`, with the answer on standard output thrown away: only the
/// exit status is of interest.
pub open spec fn spec_probe_command() -> CommandView {
    CommandView { program: "which"@, args: seq!["nasm"@], discard_stdout: true }
}

/// The command that finds out whether the assembler is on the search path.
pub fn probe_command() -> (command: Command)
    ensures
        command@ == spec_probe_command(),
{
    let mut args: Vec<String> = Vec::new();
    args.push(ASSEMBLER.to_string());
    let command = Command { program: LOCATOR.to_string(), args, discard_stdout: true };
    assert(command@.args =~= spec_probe_command().args);
    command
}

/// What the answer to the probe means: the assembler is installed exactly
/// if the probe command ran and reported success. That the command could
/// not be run at all is a failure, not a "no".
pub open spec fn spec_is_nasm_installed(event: Event) -> Result<bool, Failure> {
    match event {
        Event::Exited(status) => Ok(status.success),
        Event::Failed => Err(Failure::Probe),
        _ => Err(Failure::UnexpectedEvent),
    }
}

/// Reads the answer to the probe.
///
/// `Ok(true)` where the probe command reported success, `Ok(false)` where
/// it ran and reported anything else, [`Failure::Probe`] where it could not
/// be run, and [`Failure::UnexpectedEvent`] for an event that is no answer
/// to a probe.
pub fn is_nasm_installed(event: Event) -> (found: Result<bool, Failure>)
    ensures
        found == spec_is_nasm_installed(event),
{
    match event {
        Event::Exited(status) => Ok(status.success),
        Event::Failed => Err(Failure::Probe),
        _ => Err(Failure::UnexpectedEvent),
    }
}

} // verus!
