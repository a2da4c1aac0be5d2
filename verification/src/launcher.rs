//! The launcher as a whole.
//!
//! The launcher changes to the requested root directory, if one is given,
//! and finds out whether the assembler is installed. Without an assembler
//! it ends at once with exit code 0. With one it makes sure that the build
//! tree exists, looks for the assembly source, and assembles, links and
//! runs it; the exit code of the binary is its own.
//!
//! [`start`] hands out the first action, [`execute_asm`] each further one
//! in answer to the event that reports on the action before.

use vstd::prelude::*;
use crate::bootstrap::{ensure_dirs_exist, spec_ensure_dirs_exist, Bootstrap};
use crate::pipeline::{run_asm_file, spec_run_asm_file};
use crate::probe::{is_nasm_installed, spec_is_nasm_installed};
use crate::protocol::{Action, ChildStatus, Event, Failure, Progress};
use crate::toolchain::Stage;

verus! {

/// Where the launcher stands: which answer it awaits, or how it ended.
#[derive(Clone, Copy, Debug, PartialEq, Eq)]
pub enum Launcher {
    /// The change of the working directory is under way.
    ChangingDir,
    /// The search for the assembler is under way.
    Probing,
    /// The build tree is being looked at and completed.
    Bootstrapping(Bootstrap),
    /// The assembly source is being looked for.
    CheckingSource,
    /// The stage's process is running.
    Running(Stage),
    /// The launcher has ended with the given exit code.
    Exited(i32),
    /// The launcher has given up.
    Aborted(Failure),
}

/// The state and the action with which the launcher ends normally.
pub open spec fn spec_exit(code: i32) -> (Launcher, Action) {
    (Launcher::Exited(code), Action::Exit(code))
}

/// The state and the action with which the launcher gives up.
pub open spec fn spec_abort(failure: Failure) -> (Launcher, Action) {
    (Launcher::Aborted(failure), Action::Abort(failure))
}

/// The state in which the launcher starts, and its first action: the
/// change to the root directory where one is given, the search for the
/// assembler where none is.
pub open spec fn spec_start(root_dir: Option<String>) -> (Launcher, Action) {
    match root_dir {
        Some(path) => (Launcher::ChangingDir, Action::ChangeDir(path)),
        None => (Launcher::Probing, Action::Probe),
    }
}

/// How the launcher goes on after an event.
pub open spec fn spec_execute_asm(state: Launcher, event: Event) -> (Launcher, Action) {
    match state {
        Launcher::ChangingDir => match event {
            Event::Done => (Launcher::Probing, Action::Probe),
            Event::Failed => spec_abort(Failure::ChangeDir),
            _ => spec_abort(Failure::UnexpectedEvent),
        },
        Launcher::Probing => match spec_is_nasm_installed(event) {
            Ok(true) => (
                Launcher::Bootstrapping(crate::bootstrap::spec_begin().0),
                crate::bootstrap::spec_begin().1,
            ),
            Ok(false) => spec_exit(0),
            Err(failure) => spec_abort(failure),
        },
        Launcher::Bootstrapping(bootstrap) => match spec_ensure_dirs_exist(bootstrap, event) {
            Progress::Continue(next, action) => (Launcher::Bootstrapping(next), action),
            Progress::Complete(_) => (Launcher::CheckingSource, Action::CheckSource),
            Progress::Failed(failure) => spec_abort(failure),
        },
        Launcher::CheckingSource => match event {
            Event::Exists(true) => (
                Launcher::Running(crate::pipeline::spec_begin().0),
                crate::pipeline::spec_begin().1,
            ),
            Event::Exists(false) => spec_abort(Failure::MissingSource),
            _ => spec_abort(Failure::UnexpectedEvent),
        },
        Launcher::Running(stage) => match spec_run_asm_file(stage, event) {
            Progress::Continue(next, action) => (Launcher::Running(next), action),
            Progress::Complete(code) => spec_exit(code),
            Progress::Failed(failure) => spec_abort(failure),
        },
        Launcher::Exited(code) => spec_exit(code),
        Launcher::Aborted(failure) => spec_abort(failure),
    }
}

/// Ends the launcher with the given exit code.
fn exit(code: i32) -> (end: (Launcher, Action))
    ensures
        end == spec_exit(code),
{
    (Launcher::Exited(code), Action::Exit(code))
}

/// Ends the launcher with the given failure.
fn abort(failure: Failure) -> (end: (Launcher, Action))
    ensures
        end == spec_abort(failure),
{
    (Launcher::Aborted(failure), Action::Abort(failure))
}

/// Starts the launcher.
///
/// With a root directory the first action is the change to exactly that
/// directory; nothing else is asked for until the change has been
/// answered. Without one the launcher begins with the search for the
/// assembler.
pub fn start(root_dir: Option<String>) -> (first: (Launcher, Action))
    ensures
        first == spec_start(root_dir),
{
    match root_dir {
        Some(path) => (Launcher::ChangingDir, Action::ChangeDir(path)),
        None => (Launcher::Probing, Action::Probe),
    }
}

/// Advances the launcher by one event.
///
/// `state` is the state that was handed out with the last action and
/// `event` reports what became of that action. The result is the next
/// state and the next action. Once the action is [`Action::Exit`] or
/// [`Action::Abort`] the launcher has ended: whatever event follows, it
/// stays in its state and repeats the action.
pub fn execute_asm(state: Launcher, event: Event) -> (next: (Launcher, Action))
    ensures
        next == spec_execute_asm(state, event),
{
    match state {
        Launcher::ChangingDir => match event {
            Event::Done => (Launcher::Probing, Action::Probe),
            Event::Failed => abort(Failure::ChangeDir),
            _ => abort(Failure::UnexpectedEvent),
        },
        Launcher::Probing => match is_nasm_installed(event) {
            Ok(true) => {
                let (bootstrap, action) = crate::bootstrap::begin();
                (Launcher::Bootstrapping(bootstrap), action)
            },
            Ok(false) => exit(0),
            Err(failure) => abort(failure),
        },
        Launcher::Bootstrapping(bootstrap) => match ensure_dirs_exist(bootstrap, event) {
            Progress::Continue(next, action) => (Launcher::Bootstrapping(next), action),
            Progress::Complete(_) => (Launcher::CheckingSource, Action::CheckSource),
            Progress::Failed(failure) => abort(failure),
        },
        Launcher::CheckingSource => match event {
            Event::Exists(true) => {
                let (stage, action) = crate::pipeline::begin();
                (Launcher::Running(stage), action)
            },
            Event::Exists(false) => abort(Failure::MissingSource),
            _ => abort(Failure::UnexpectedEvent),
        },
        Launcher::Running(stage) => match run_asm_file(stage, event) {
            Progress::Continue(next, action) => (Launcher::Running(next), action),
            Progress::Complete(code) => exit(code),
            Progress::Failed(failure) => abort(failure),
        },
        Launcher::Exited(code) => exit(code),
        Launcher::Aborted(failure) => abort(failure),
    }
}

/// The state of a launcher that was started with `root_dir` and has since
/// been handed `events`, one after the other.
pub open spec fn spec_state(root_dir: Option<String>, events: Seq<Event>) -> Launcher
    decreases events.len(),
{
    if events.len() == 0 {
        spec_start(root_dir).0
    } else {
        spec_execute_asm(spec_state(root_dir, events.drop_last()), events.last()).0
    }
}

/// The action that such a launcher handed out last: its first action where
/// no event has come in yet, else its answer to the last event.
pub open spec fn spec_action(root_dir: Option<String>, events: Seq<Event>) -> Action
    decreases events.len(),
{
    if events.len() == 0 {
        spec_start(root_dir).1
    } else {
        spec_execute_asm(spec_state(root_dir, events.drop_last()), events.last()).1
    }
}

/// The number of events that come in before the answer to the probe: the
/// answer to the change of directory where a root directory is given, none
/// where it is not.
pub open spec fn probe_position(root_dir: Option<String>) -> int {
    if root_dir is Some {
        1
    } else {
        0
    }
}

/// A launcher that has ended stays as it is: whatever events follow, it
/// keeps its state and repeats its last action.
pub proof fn lemma_end_is_final(state: Launcher, event: Event)
    ensures
        state matches Launcher::Exited(code) ==> spec_execute_asm(state, event) == spec_exit(code),
        state matches Launcher::Aborted(failure) ==> spec_execute_asm(state, event) == spec_abort(
            failure,
        ),
        spec_execute_asm(state, event).1.spec_is_final() <==> (spec_execute_asm(state, event).0
            is Exited || spec_execute_asm(state, event).0 is Aborted),
{
}

/// The state after a history and the action that was handed out last
/// belong together: the launcher has ended with an exit code exactly if
/// its last action was the exit with that code, and has given up exactly
/// if its last action was the abort with that failure.
pub proof fn lemma_action_shows_end(root_dir: Option<String>, events: Seq<Event>)
    ensures
        spec_state(root_dir, events) matches Launcher::Exited(code) ==> spec_action(
            root_dir,
            events,
        ) == Action::Exit(code),
        spec_state(root_dir, events) matches Launcher::Aborted(failure) ==> spec_action(
            root_dir,
            events,
        ) == Action::Abort(failure),
        spec_action(root_dir, events) matches Action::Exit(code) ==> spec_state(root_dir, events)
            == Launcher::Exited(code),
        spec_action(root_dir, events) matches Action::Abort(failure) ==> spec_state(
            root_dir,
            events,
        ) == Launcher::Aborted(failure),
{
    if events.len() > 0 {
        lemma_end_is_final(spec_state(root_dir, events.drop_last()), events.last());
    }
}

/// Once a history has led to an end, every longer history leads to the
/// same end.
pub proof fn lemma_end_is_kept(root_dir: Option<String>, events: Seq<Event>, n: int)
    requires
        0 <= n <= events.len(),
        spec_action(root_dir, events.take(n)).spec_is_final(),
    ensures
        spec_state(root_dir, events) == spec_state(root_dir, events.take(n)),
        spec_action(root_dir, events) == spec_action(root_dir, events.take(n)),
    decreases events.len() - n,
{
    if n == events.len() {
        assert(events.take(n) =~= events);
    } else {
        assert(events.drop_last().take(n) =~= events.take(n));
        lemma_end_is_kept(root_dir, events.drop_last(), n);
        lemma_action_shows_end(root_dir, events.drop_last());
        lemma_end_is_final(spec_state(root_dir, events.drop_last()), events.last());
    }
}

/// A root directory is entered before anything else is done.
///
/// The first action of a launcher that is given a root directory is the
/// change to exactly that directory. Whatever comes in afterwards, the
/// launcher takes no further action but to give up, unless the change has
/// been answered with success; and once it has, the search for the
/// assembler follows.
pub proof fn lemma_root_dir_comes_first(path: String, events: Seq<Event>)
    ensures
        spec_action(Some(path), Seq::empty()) == Action::ChangeDir(path),
        events.len() > 0 && events[0] != Event::Done ==> spec_action(Some(path), events) is Abort,
        events.len() == 1 && events[0] == Event::Done ==> spec_action(Some(path), events)
            == Action::Probe,
        events.len() > 0 ==> !(spec_action(Some(path), events) is ChangeDir),
{
    if events.len() > 0 {
        let first = events.take(1);
        assert(first.drop_last() =~= Seq::<Event>::empty());
        assert(first.last() == events[0]);
        assert(spec_state(Some(path), first.drop_last()) == Launcher::ChangingDir);
        if events.len() == 1 {
            assert(first =~= events);
        }
        if events[0] != Event::Done {
            lemma_end_is_kept(Some(path), events, 1);
        }
        lemma_never_changes_dir_again(Some(path), events);
    }
}

/// No answer of the launcher to an event is a change of directory.
proof fn lemma_never_changes_dir_again(root_dir: Option<String>, events: Seq<Event>)
    requires
        events.len() > 0,
    ensures
        !(spec_action(root_dir, events) is ChangeDir),
{
}

/// A root directory that cannot be entered ends the launcher before it
/// has touched anything.
///
/// Where the change to the root directory fails, the launcher gives up
/// with [`Failure::ChangeDir`] at once and for good: no later action looks
/// for the assembler, looks at or creates a directory, or starts a process.
pub proof fn lemma_missing_root_dir_aborts(path: String, events: Seq<Event>)
    requires
        events.len() > 0,
        events[0] == Event::Failed,
    ensures
        spec_action(Some(path), events) == Action::Abort(Failure::ChangeDir),
        spec_state(Some(path), events) == Launcher::Aborted(Failure::ChangeDir),
{
    let first = events.take(1);
    assert(first.drop_last() =~= Seq::<Event>::empty());
    assert(first.last() == events[0]);
    assert(spec_state(Some(path), first.drop_last()) == Launcher::ChangingDir);
    lemma_end_is_kept(Some(path), events, 1);
}

/// Up to the answer to the probe the launcher does nothing but change the
/// directory and probe.
proof fn lemma_before_probe(root_dir: Option<String>, events: Seq<Event>)
    requires
        root_dir is Some && events.len() > 0 ==> events[0] == Event::Done,
        events.len() <= probe_position(root_dir),
    ensures
        spec_action(root_dir, events) is ChangeDir || spec_action(root_dir, events) is Probe,
        events.len() == probe_position(root_dir) ==> spec_state(root_dir, events)
            == Launcher::Probing && spec_action(root_dir, events) == Action::Probe,
{
    if events.len() > 0 {
        assert(events.drop_last() =~= Seq::<Event>::empty());
        assert(events.last() == events[0]);
    }
}

/// Without an assembler the launcher does nothing and ends with success.
///
/// Where the probe reports that the assembler is not installed, the
/// launcher's answer is the exit with code 0, and it stays that. In the
/// whole history, before the probe and after it, no action creates a
/// directory or starts a stage of the build.
pub proof fn lemma_absent_assembler_is_no_op(
    root_dir: Option<String>,
    events: Seq<Event>,
    status: ChildStatus,
)
    requires
        root_dir is Some ==> events.len() > 0 && events[0] == Event::Done,
        events.len() > probe_position(root_dir),
        events[probe_position(root_dir)] == Event::Exited(status),
        !status.success,
    ensures
        spec_action(root_dir, events.take(probe_position(root_dir))) == Action::Probe,
        spec_action(root_dir, events) == Action::Exit(0),
        spec_state(root_dir, events) == Launcher::Exited(0),
        forall|n: int|
            0 <= n <= events.len() ==> !(#[trigger] spec_action(root_dir, events.take(n))).builds(),
{
    let at = probe_position(root_dir);
    let answered = events.take(at + 1);
    assert(answered.drop_last() =~= events.take(at));
    assert(answered.last() == events[at]);
    lemma_before_probe(root_dir, events.take(at));
    assert(spec_action(root_dir, answered) == Action::Exit(0));
    lemma_end_is_kept(root_dir, events, at + 1);
    assert forall|n: int| 0 <= n <= events.len() implies !(#[trigger] spec_action(
        root_dir,
        events.take(n),
    )).builds() by {
        let history = events.take(n);
        if n <= at {
            lemma_before_probe(root_dir, history);
        } else {
            assert(history.take(at + 1) =~= answered);
            lemma_end_is_kept(root_dir, history, at + 1);
        }
    }
}

/// Nothing is built before the assembler has been found.
///
/// Whatever the history, an action that creates a directory or starts a
/// stage of the build is handed out only after a probe that reported
/// success.
pub proof fn lemma_builds_only_with_assembler(root_dir: Option<String>, events: Seq<Event>)
    requires
        spec_action(root_dir, events).builds(),
    ensures
        events.len() > probe_position(root_dir),
        events[probe_position(root_dir)] matches Event::Exited(status) && status.success,
        root_dir is Some ==> events[0] == Event::Done,
{
    let at = probe_position(root_dir);
    if root_dir is Some && events.len() > 0 && events[0] != Event::Done {
        lemma_root_dir_comes_first(root_dir->0, events);
    }
    if events.len() <= at {
        if events.len() > 0 {
            assert(events.drop_last() =~= Seq::<Event>::empty());
        }
    } else {
        let answered = events.take(at + 1);
        assert(answered.drop_last() =~= events.take(at));
        assert(answered.last() == events[at]);
        lemma_before_probe(root_dir, events.take(at));
        let installed = spec_is_nasm_installed(events[at]);
        if installed != Ok::<bool, Failure>(true) {
            assert(spec_action(root_dir, answered).spec_is_final());
            lemma_end_is_kept(root_dir, events, at + 1);
        }
    }
}

/// A missing source ends the launcher with a message that names it.
///
/// The launcher looks for the assembly source when the build tree is
/// complete, and only then. Where the source is not found, it gives up with
/// [`Failure::MissingSource`], whose message ends with the path at which
/// the source was expected; where it is found, the assembler is started.
pub proof fn lemma_missing_source_aborts(bootstrap: Bootstrap, event: Event)
    ensures
        spec_execute_asm(Launcher::Bootstrapping(bootstrap), event).1 == Action::CheckSource
            <==> spec_ensure_dirs_exist(bootstrap, event) is Complete,
        spec_execute_asm(Launcher::Bootstrapping(bootstrap), event).1 == Action::CheckSource
            ==> spec_execute_asm(Launcher::Bootstrapping(bootstrap), event).0
            == Launcher::CheckingSource,
        spec_execute_asm(Launcher::CheckingSource, Event::Exists(false)) == spec_abort(
            Failure::MissingSource,
        ),
        spec_execute_asm(Launcher::CheckingSource, Event::Exists(true)) == (
            Launcher::Running(Stage::Assemble),
            Action::Spawn(Stage::Assemble),
        ),
        Failure::MissingSource.spec_message()
            == "Could not find output asm file at path: "@ + crate::layout::ASM_FILE@,
{
}

} // verus!
