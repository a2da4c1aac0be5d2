//! The build-and-run sequence: assemble, link, execute.
//!
//! The three stages run strictly one after the other. How the assembler and
//! the linker ended is not looked at: the next stage is started whatever
//! their exit status was. The result of the sequence is the exit code of
//! the binary.

use vstd::prelude::*;
use crate::protocol::{Action, ChildStatus, Event, Failure, Progress};
use crate::toolchain::Stage;

verus! {

/// The first stage, and the action that starts it.
pub open spec fn spec_begin() -> (Stage, Action) {
    (Stage::Assemble, Action::Spawn(Stage::Assemble))
}

/// Starts the sequence with the assembler.
pub fn begin() -> (start: (Stage, Action))
    ensures
        start == spec_begin(),
{
    (Stage::Assemble, Action::Spawn(Stage::Assemble))
}

/// How the sequence goes on when the process of `stage` has been dealt
/// with.
///
/// A process that ran is followed by the next stage, whatever its status.
/// The last stage's exit code is the result; without one the sequence
/// fails. A process that could not be started or waited for fails the
/// sequence at once.
pub open spec fn spec_run_asm_file(stage: Stage, event: Event) -> Progress<Stage, i32> {
    match event {
        Event::Exited(status) => match stage.spec_next() {
            Some(next) => Progress::Continue(next, Action::Spawn(next)),
            None => match status.code {
                Some(code) => Progress::Complete(code),
                None => Progress::Failed(Failure::NoExitCode),
            },
        },
        Event::Failed => Progress::Failed(Failure::Spawn(stage)),
        _ => Progress::Failed(Failure::UnexpectedEvent),
    }
}

/// Advances the sequence by one event.
///
/// `stage` is the stage whose process was started last, `event` says what
/// became of it. The answer is the next stage to start, the exit code of
/// the binary once the last stage has ended, or the failure.
pub fn run_asm_file(stage: Stage, event: Event) -> (progress: Progress<Stage, i32>)
    ensures
        progress == spec_run_asm_file(stage, event),
{
    match event {
        Event::Exited(status) => match stage.next() {
            Some(next) => Progress::Continue(next, Action::Spawn(next)),
            None => match status.code {
                Some(code) => Progress::Complete(code),
                None => Progress::Failed(Failure::NoExitCode),
            },
        },
        Event::Failed => Progress::Failed(Failure::Spawn(stage)),
        _ => Progress::Failed(Failure::UnexpectedEvent),
    }
}

/// Where all three processes run, the sequence starts them in the order
/// assemble, link, execute and ends with the exit code of the binary,
/// whatever the assembler and the linker reported.
pub proof fn lemma_result_is_exit_code_of_binary(
    assembled: ChildStatus,
    linked: ChildStatus,
    ran: ChildStatus,
)
    ensures
        spec_begin() == (Stage::Assemble, Action::Spawn(Stage::Assemble)),
        spec_run_asm_file(Stage::Assemble, Event::Exited(assembled)) == Progress::<
            Stage,
            i32,
        >::Continue(Stage::Link, Action::Spawn(Stage::Link)),
        spec_run_asm_file(Stage::Link, Event::Exited(linked)) == Progress::<
            Stage,
            i32,
        >::Continue(Stage::Execute, Action::Spawn(Stage::Execute)),
        ran.code matches Some(code) ==> spec_run_asm_file(Stage::Execute, Event::Exited(ran))
            == Progress::<Stage, i32>::Complete(code),
        ran.code is None ==> spec_run_asm_file(Stage::Execute, Event::Exited(ran))
            == Progress::<Stage, i32>::Failed(Failure::NoExitCode),
{
}

} // verus!
