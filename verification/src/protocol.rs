//! What passes between the launcher's decisions and the code that acts on
//! them.
//!
//! The launcher decides; it never touches the file system and never starts a
//! process. It hands out an [`Action`], the caller carries it out and reports
//! what happened as an [`Event`], and the launcher answers with the next
//! action. [`Action::Exit`] and [`Action::Abort`] end the exchange.

use vstd::prelude::*;
use crate::layout::{BuildDir, ASM_FILE};
use crate::toolchain::Stage;

verus! {

/// How a child process ended.
#[derive(Clone, Copy, Debug, PartialEq, Eq)]
pub struct ChildStatus {
    /// Whether the child reported success.
    pub success: bool,
    /// The child's exit code; `None` where it ended without one, as a
    /// process does that a signal has killed.
    pub code: Option<i32>,
}

/// What the caller reports after it has carried out an [`Action`].
#[derive(Clone, Copy, Debug, PartialEq, Eq)]
pub enum Event {
    /// The working directory was changed, or the directory was created.
    Done,
    /// The operating system refused: the directory could not be entered or
    /// created, or the process could not be started or waited for.
    Failed,
    /// Whether the path that was asked about exists.
    Exists(bool),
    /// The process ran and ended.
    Exited(ChildStatus),
}

/// Why the launcher gives up.
#[derive(Clone, Copy, Debug, PartialEq, Eq)]
pub enum Failure {
    /// The working directory could not be changed to the requested root.
    ChangeDir,
    /// The search for the assembler could not be run.
    Probe,
    /// A directory of the build tree is missing and could not be created.
    CreateDir(BuildDir),
    /// The assembly source is not where it is expected.
    MissingSource,
    /// A stage's process could not be started or waited for.
    Spawn(Stage),
    /// The binary ended without an exit code.
    NoExitCode,
    /// The event does not answer the action that was handed out last.
    UnexpectedEvent,
}

impl Failure {
    /// The text that tells the user what went wrong.
    pub open spec fn spec_message(self) -> Seq<char> {
        match self {
            Failure::ChangeDir => "Failed to set rootdir to specified dir"@,
            Failure::Probe => "Failed to check if nasm is installed"@,
            Failure::CreateDir(_) => "Failed to create directories"@,
            Failure::MissingSource => "Could not find output asm file at path: "@ + ASM_FILE@,
            Failure::Spawn(_) => "Failed to execute asm file"@,
            Failure::NoExitCode => "The executed binary ended without an exit code"@,
            Failure::UnexpectedEvent => "Unexpected event for the pending action"@,
        }
    }

    /// The text that tells the user what went wrong. For a missing source
    /// it ends with the path at which the source was expected.
    pub fn message(&self) -> (message: String)
        ensures
            message@ == self.spec_message(),
    {
        match self {
            Failure::ChangeDir => "Failed to set rootdir to specified dir".to_string(),
            Failure::Probe => "Failed to check if nasm is installed".to_string(),
            Failure::CreateDir(_) => "Failed to create directories".to_string(),
            Failure::MissingSource => "Could not find output asm file at path: ".to_string().concat(
                ASM_FILE,
            ),
            Failure::Spawn(_) => "Failed to execute asm file".to_string(),
            Failure::NoExitCode => "The executed binary ended without an exit code".to_string(),
            Failure::UnexpectedEvent => "Unexpected event for the pending action".to_string(),
        }
    }
}

/// What the caller is to do next.
#[derive(Clone, Debug, PartialEq, Eq)]
pub enum Action {
    /// Make the given directory the working directory of the process.
    /// Answered by [`Event::Done`] or [`Event::Failed`].
    ChangeDir(String),
    /// Run the probe command and wait for it. Answered by
    /// [`Event::Exited`], or by [`Event::Failed`] where it could not be run.
    Probe,
    /// Find out whether the directory exists. Answered by
    /// [`Event::Exists`]; a path that cannot be examined does not exist.
    CheckDir(BuildDir),
    /// Create the directory. Answered by [`Event::Done`] or
    /// [`Event::Failed`].
    CreateDir(BuildDir),
    /// Find out whether the assembly source exists. Answered by
    /// [`Event::Exists`].
    CheckSource,
    /// Run the stage's command and wait for it. Answered by
    /// [`Event::Exited`], or by [`Event::Failed`] where the process could
    /// not be started or waited for.
    Spawn(Stage),
    /// End the process with the given exit code.
    Exit(i32),
    /// End the process abnormally, with the failure's message.
    Abort(Failure),
}

impl Action {
    /// Whether the action changes anything below the working directory or
    /// starts part of the toolchain: it creates a directory or runs a stage.
    pub open spec fn builds(self) -> bool {
        self is CreateDir || self is Spawn
    }

    /// Whether the action ends the exchange.
    pub open spec fn spec_is_final(self) -> bool {
        self is Exit || self is Abort
    }

    /// Whether the action ends the exchange: no event answers it.
    pub fn is_final(&self) -> (last: bool)
        ensures
            last == self.spec_is_final(),
    {
        match self {
            Action::Exit(_) => true,
            Action::Abort(_) => true,
            _ => false,
        }
    }
}

/// Where a part of the launcher's work stands after an event.
#[derive(Clone, Debug, PartialEq, Eq)]
pub enum Progress<S, T> {
    /// The part goes on in the given state, with the given action.
    Continue(S, Action),
    /// The part is done, with the given result.
    Complete(T),
    /// The part has failed.
    Failed(Failure),
}

/// The message for a missing source names the source's path, letter for
/// letter, behind the words that introduce it.
pub proof fn lemma_missing_source_names_path()
    ensures
        Failure::MissingSource.spec_message()
            == "Could not find output asm file at path: build/asm/out.asm"@,
        Failure::MissingSource.spec_message().len() >= ASM_FILE@.len(),
        Failure::MissingSource.spec_message().subrange(
            Failure::MissingSource.spec_message().len() - ASM_FILE@.len(),
            Failure::MissingSource.spec_message().len() as int,
        ) == ASM_FILE@,
{
    reveal_strlit("Could not find output asm file at path: ");
    reveal_strlit("build/asm/out.asm");
    reveal_strlit("Could not find output asm file at path: build/asm/out.asm");
    let message = Failure::MissingSource.spec_message();
    assert(message =~= "Could not find output asm file at path: build/asm/out.asm"@);
    assert(message.subrange(message.len() - ASM_FILE@.len(), message.len() as int) =~= ASM_FILE@);
}

} // verus!
