use asm_launcher::bootstrap::{begin, ensure_dirs_exist, Bootstrap};
use asm_launcher::layout::BuildDir;
use asm_launcher::pipeline::run_asm_file;
use asm_launcher::protocol::{Action, ChildStatus, Event, Failure, Progress};
use asm_launcher::toolchain::Stage;
use std::collections::HashSet;

/// A file system that holds the build directories in `present` and refuses
/// to create those in `denied`.
struct Tree {
    present: HashSet<BuildDir>,
    denied: HashSet<BuildDir>,
}

fn tree(present: &[BuildDir], denied: &[BuildDir]) -> Tree {
    Tree { present: present.iter().copied().collect(), denied: denied.iter().copied().collect() }
}

/// Runs the work on the build tree against `tree`; returns the directories
/// created and the failure, if any.
fn bootstrap(tree: &mut Tree) -> (Vec<BuildDir>, Option<Failure>) {
    let mut created = Vec::new();
    let (mut state, mut action) = begin();
    for _ in 0..8 {
        assert_eq!(action, state.pending());
        let event = match action {
            Action::CheckDir(dir) => Event::Exists(tree.present.contains(&dir)),
            Action::CreateDir(dir) => {
                if tree.present.contains(&dir) || tree.denied.contains(&dir) {
                    Event::Failed
                } else {
                    tree.present.insert(dir);
                    created.push(dir);
                    Event::Done
                }
            }
            other => panic!("not an action on the build tree: {:?}", other),
        };
        match ensure_dirs_exist(state, event) {
            Progress::Continue(next, request) => {
                state = next;
                action = request;
            }
            Progress::Complete(()) => return (created, None),
            Progress::Failed(failure) => return (created, Some(failure)),
        }
    }
    panic!("the work on the build tree did not end within eight events");
}

const ALL: [BuildDir; 4] = [BuildDir::Root, BuildDir::Asm, BuildDir::Obj, BuildDir::Bin];

#[test]
fn bootstrap_begins_with_a_look_at_the_root() {
    assert_eq!(begin(), (Bootstrap::Checking(BuildDir::Root), Action::CheckDir(BuildDir::Root)));
}

#[test]
fn bootstrap_creates_whole_tree_in_order() {
    let mut fs = tree(&[], &[]);
    let (created, failure) = bootstrap(&mut fs);
    assert_eq!(failure, None);
    assert_eq!(created, ALL.to_vec());
    assert_eq!(fs.present, ALL.iter().copied().collect());
}

#[test]
fn bootstrap_creates_only_what_is_missing() {
    let mut fs = tree(&[BuildDir::Root, BuildDir::Obj], &[]);
    let (created, failure) = bootstrap(&mut fs);
    assert_eq!(failure, None);
    assert_eq!(created, vec![BuildDir::Asm, BuildDir::Bin]);
    assert_eq!(fs.present, ALL.iter().copied().collect());
}

#[test]
fn bootstrap_twice_is_idempotent() {
    for mask in 0..16u32 {
        let present: Vec<BuildDir> =
            ALL.iter().copied().enumerate().filter(|(i, _)| mask & (1 << i) != 0).map(|(_, d)| d).collect();
        let mut fs = tree(&present, &[]);
        let (_, first) = bootstrap(&mut fs);
        assert_eq!(first, None);
        let after_first = fs.present.clone();
        let (created, second) = bootstrap(&mut fs);
        assert_eq!(second, None);
        assert!(created.is_empty());
        assert_eq!(fs.present, after_first);
    }
}

#[test]
fn bootstrap_leaves_complete_tree_alone() {
    let mut fs = tree(&ALL, &ALL);
    let (created, failure) = bootstrap(&mut fs);
    assert_eq!(failure, None);
    assert!(created.is_empty());
}

#[test]
fn bootstrap_fails_at_first_directory_it_cannot_create() {
    let mut fs = tree(&[BuildDir::Root], &[BuildDir::Obj, BuildDir::Bin]);
    let (created, failure) = bootstrap(&mut fs);
    assert_eq!(failure, Some(Failure::CreateDir(BuildDir::Obj)));
    assert_eq!(created, vec![BuildDir::Asm]);
    assert!(!fs.present.contains(&BuildDir::Bin));
}

#[test]
fn bootstrap_steps_one_by_one() {
    let checking = Bootstrap::Checking(BuildDir::Asm);
    assert_eq!(
        ensure_dirs_exist(checking, Event::Exists(true)),
        Progress::Continue(Bootstrap::Checking(BuildDir::Obj), Action::CheckDir(BuildDir::Obj))
    );
    assert_eq!(
        ensure_dirs_exist(checking, Event::Exists(false)),
        Progress::Continue(Bootstrap::Creating(BuildDir::Asm), Action::CreateDir(BuildDir::Asm))
    );
    let creating = Bootstrap::Creating(BuildDir::Asm);
    assert_eq!(
        ensure_dirs_exist(creating, Event::Done),
        Progress::Continue(Bootstrap::Checking(BuildDir::Obj), Action::CheckDir(BuildDir::Obj))
    );
    assert_eq!(
        ensure_dirs_exist(creating, Event::Failed),
        Progress::Failed(Failure::CreateDir(BuildDir::Asm))
    );
    assert_eq!(ensure_dirs_exist(Bootstrap::Checking(BuildDir::Bin), Event::Exists(true)), Progress::Complete(()));
    assert_eq!(ensure_dirs_exist(Bootstrap::Creating(BuildDir::Bin), Event::Done), Progress::Complete(()));
}

#[test]
fn bootstrap_rejects_events_that_do_not_answer() {
    let status = ChildStatus { success: true, code: Some(0) };
    let unexpected = Progress::Failed(Failure::UnexpectedEvent);
    assert_eq!(ensure_dirs_exist(Bootstrap::Checking(BuildDir::Root), Event::Done), unexpected);
    assert_eq!(ensure_dirs_exist(Bootstrap::Checking(BuildDir::Root), Event::Failed), unexpected);
    assert_eq!(ensure_dirs_exist(Bootstrap::Checking(BuildDir::Root), Event::Exited(status)), unexpected);
    assert_eq!(ensure_dirs_exist(Bootstrap::Creating(BuildDir::Root), Event::Exists(true)), unexpected);
    assert_eq!(ensure_dirs_exist(Bootstrap::Creating(BuildDir::Root), Event::Exited(status)), unexpected);
}

#[test]
fn pipeline_begins_with_the_assembler() {
    assert_eq!(asm_launcher::pipeline::begin(), (Stage::Assemble, Action::Spawn(Stage::Assemble)));
}

#[test]
fn pipeline_runs_stages_in_order_and_returns_exit_code() {
    let ok = Event::Exited(ChildStatus { success: true, code: Some(0) });
    assert_eq!(run_asm_file(Stage::Assemble, ok), Progress::Continue(Stage::Link, Action::Spawn(Stage::Link)));
    assert_eq!(run_asm_file(Stage::Link, ok), Progress::Continue(Stage::Execute, Action::Spawn(Stage::Execute)));
    let seven = Event::Exited(ChildStatus { success: false, code: Some(7) });
    assert_eq!(run_asm_file(Stage::Execute, seven), Progress::Complete(7));
    assert_eq!(run_asm_file(Stage::Execute, ok), Progress::Complete(0));
    let negative = Event::Exited(ChildStatus { success: false, code: Some(-1) });
    assert_eq!(run_asm_file(Stage::Execute, negative), Progress::Complete(-1));
}

#[test]
fn pipeline_does_not_look_at_status_of_assembler_and_linker() {
    let failed = Event::Exited(ChildStatus { success: false, code: Some(1) });
    let killed = Event::Exited(ChildStatus { success: false, code: None });
    assert_eq!(run_asm_file(Stage::Assemble, failed), Progress::Continue(Stage::Link, Action::Spawn(Stage::Link)));
    assert_eq!(run_asm_file(Stage::Assemble, killed), Progress::Continue(Stage::Link, Action::Spawn(Stage::Link)));
    assert_eq!(run_asm_file(Stage::Link, failed), Progress::Continue(Stage::Execute, Action::Spawn(Stage::Execute)));
    assert_eq!(run_asm_file(Stage::Link, killed), Progress::Continue(Stage::Execute, Action::Spawn(Stage::Execute)));
}

#[test]
fn pipeline_fails_where_a_process_cannot_be_started() {
    assert_eq!(run_asm_file(Stage::Assemble, Event::Failed), Progress::Failed(Failure::Spawn(Stage::Assemble)));
    assert_eq!(run_asm_file(Stage::Link, Event::Failed), Progress::Failed(Failure::Spawn(Stage::Link)));
    assert_eq!(run_asm_file(Stage::Execute, Event::Failed), Progress::Failed(Failure::Spawn(Stage::Execute)));
}

#[test]
fn pipeline_fails_where_binary_has_no_exit_code() {
    let killed = Event::Exited(ChildStatus { success: false, code: None });
    assert_eq!(run_asm_file(Stage::Execute, killed), Progress::Failed(Failure::NoExitCode));
}

#[test]
fn pipeline_rejects_events_that_do_not_answer() {
    assert_eq!(run_asm_file(Stage::Assemble, Event::Done), Progress::Failed(Failure::UnexpectedEvent));
    assert_eq!(run_asm_file(Stage::Link, Event::Exists(true)), Progress::Failed(Failure::UnexpectedEvent));
    assert_eq!(run_asm_file(Stage::Execute, Event::Exists(false)), Progress::Failed(Failure::UnexpectedEvent));
}
