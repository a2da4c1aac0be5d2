//! Making sure that the build tree exists.
//!
//! The directories are taken in their order of creation. Each is looked at
//! first and created only where it is missing, so that a tree that is
//! already there is left as it is. The first directory that cannot be
//! created ends the work with a failure.

use vstd::prelude::*;
use crate::layout::BuildDir;
use crate::protocol::{Action, Event, Failure, Progress};

verus! {

/// Where the work on the build tree stands: which answer is awaited.
#[derive(Clone, Copy, Debug, PartialEq, Eq)]
pub enum Bootstrap {
    /// Whether the directory exists.
    Checking(BuildDir),
    /// Whether the directory could be created.
    Creating(BuildDir),
}

impl Bootstrap {
    /// The action whose answer the state awaits.
    pub open spec fn spec_pending(self) -> Action {
        match self {
            Bootstrap::Checking(dir) => Action::CheckDir(dir),
            Bootstrap::Creating(dir) => Action::CreateDir(dir),
        }
    }

    /// The directory that the state is about.
    pub open spec fn dir(self) -> BuildDir {
        match self {
            Bootstrap::Checking(dir) => dir,
            Bootstrap::Creating(dir) => dir,
        }
    }

    /// An upper bound on the number of events that the work can still take:
    /// two for each directory that is still to be looked at, one for a
    /// creation under way.
    pub open spec fn remaining(self) -> nat {
        match self {
            Bootstrap::Checking(dir) => (2 * (4 - dir.rank())) as nat,
            Bootstrap::Creating(dir) => (2 * (4 - dir.rank()) - 1) as nat,
        }
    }

    /// The action whose answer the state awaits.
    pub fn pending(&self) -> (action: Action)
        ensures
            action == self.spec_pending(),
    {
        match self {
            Bootstrap::Checking(dir) => Action::CheckDir(*dir),
            Bootstrap::Creating(dir) => Action::CreateDir(*dir),
        }
    }
}

/// The state in which the work starts, and its first action: a look at the
/// build root.
pub open spec fn spec_begin() -> (Bootstrap, Action) {
    (Bootstrap::Checking(BuildDir::Root), Action::CheckDir(BuildDir::Root))
}

/// Starts the work on the build tree.
pub fn begin() -> (start: (Bootstrap, Action))
    ensures
        start == spec_begin(),
        start.1 == start.0.spec_pending(),
{
    let first = BuildDir::first();
    (Bootstrap::Checking(first), Action::CheckDir(first))
}

/// How the work goes on once `dir` is known to exist: with a look at the
/// next directory, or not at all after the last.
pub open spec fn spec_after(dir: BuildDir) -> Progress<Bootstrap, ()> {
    match dir.spec_next() {
        Some(next) => Progress::Continue(Bootstrap::Checking(next), Action::CheckDir(next)),
        None => Progress::Complete(()),
    }
}

/// How the work goes on after an event.
///
/// A directory that exists is left alone, one that is missing is created,
/// and a directory that was created is as good as one that was found. A
/// creation that failed fails the work.
pub open spec fn spec_ensure_dirs_exist(state: Bootstrap, event: Event) -> Progress<Bootstrap, ()> {
    match (state, event) {
        (Bootstrap::Checking(dir), Event::Exists(true)) => spec_after(dir),
        (Bootstrap::Checking(dir), Event::Exists(false)) => Progress::Continue(
            Bootstrap::Creating(dir),
            Action::CreateDir(dir),
        ),
        (Bootstrap::Creating(dir), Event::Done) => spec_after(dir),
        (Bootstrap::Creating(dir), Event::Failed) => Progress::Failed(Failure::CreateDir(dir)),
        _ => Progress::Failed(Failure::UnexpectedEvent),
    }
}

/// Goes on to the directory after `dir`.
fn after(dir: BuildDir) -> (progress: Progress<Bootstrap, ()>)
    ensures
        progress == spec_after(dir),
{
    match dir.next() {
        Some(next) => Progress::Continue(Bootstrap::Checking(next), Action::CheckDir(next)),
        None => Progress::Complete(()),
    }
}

/// Advances the work on the build tree by one event.
///
/// `state` says which answer was awaited and `event` is that answer. The
/// result is the next action with the state that awaits its answer,
/// completion once the last directory exists, or the failure.
pub fn ensure_dirs_exist(state: Bootstrap, event: Event) -> (progress: Progress<Bootstrap, ()>)
    ensures
        progress == spec_ensure_dirs_exist(state, event),
        progress matches Progress::Continue(next, action) ==> action == next.spec_pending()
            && next.remaining() < state.remaining(),
{
    match state {
        Bootstrap::Checking(dir) => match event {
            Event::Exists(true) => after(dir),
            Event::Exists(false) => Progress::Continue(
                Bootstrap::Creating(dir),
                Action::CreateDir(dir),
            ),
            _ => Progress::Failed(Failure::UnexpectedEvent),
        },
        Bootstrap::Creating(dir) => match event {
            Event::Done => after(dir),
            Event::Failed => Progress::Failed(Failure::CreateDir(dir)),
            _ => Progress::Failed(Failure::UnexpectedEvent),
        },
    }
}

/// The part of a file system that the work on the build tree can see and
/// change.
pub ghost struct Tree {
    /// The directories of the build tree that exist.
    pub present: Set<BuildDir>,
    /// The directories that the file system refuses to create.
    pub denied: Set<BuildDir>,
}

impl Tree {
    /// Whether the file system creates `dir` when asked: the directory is
    /// not there yet and nothing forbids it.
    pub open spec fn grants(self, dir: BuildDir) -> bool {
        !self.present.contains(dir) && !self.denied.contains(dir)
    }

    /// The event with which the file system answers an action on the build
    /// tree.
    pub open spec fn answer(self, action: Action) -> Event {
        match action {
            Action::CheckDir(dir) => Event::Exists(self.present.contains(dir)),
            Action::CreateDir(dir) => if self.grants(dir) {
                Event::Done
            } else {
                Event::Failed
            },
            _ => Event::Failed,
        }
    }

    /// The file system after the action.
    pub open spec fn after(self, action: Action) -> Tree {
        match action {
            Action::CreateDir(dir) => if self.grants(dir) {
                Tree { present: self.present.insert(dir), denied: self.denied }
            } else {
                self
            },
            _ => self,
        }
    }

    /// Whether every directory of the build tree exists.
    pub open spec fn complete(self) -> bool {
        forall|dir: BuildDir| #[trigger] self.present.contains(dir)
    }
}

/// What a run of the work on the build tree did.
pub ghost struct BootstrapRun {
    /// The directories that were created, in the order of their creation.
    pub created: Seq<BuildDir>,
    /// The failure that ended the run, if it did not complete.
    pub failure: Option<Failure>,
    /// The file system after the run.
    pub tree: Tree,
}

/// The run that results when each action is carried out on `tree` and
/// answered as the file system answers it, from `state` on.
pub open spec fn spec_bootstrap_from(state: Bootstrap, tree: Tree) -> BootstrapRun
    decreases state.remaining(),
{
    let action = state.spec_pending();
    let event = tree.answer(action);
    let tree = tree.after(action);
    let created = if action is CreateDir && event is Done {
        seq![state.dir()]
    } else {
        Seq::empty()
    };
    match spec_ensure_dirs_exist(state, event) {
        Progress::Continue(next, _) => {
            let rest = spec_bootstrap_from(next, tree);
            BootstrapRun { created: created + rest.created, failure: rest.failure, tree: rest.tree }
        },
        Progress::Complete(_) => BootstrapRun { created, failure: None, tree },
        Progress::Failed(failure) => BootstrapRun { created, failure: Some(failure), tree },
    }
}

/// A whole run of the work on the build tree, on the file system `tree`.
pub open spec fn spec_bootstrap(tree: Tree) -> BootstrapRun {
    spec_bootstrap_from(spec_begin().0, tree)
}

/// What a run from `state` on does, where the run is under way on a file
/// system that fits the state: a directory whose creation is awaited is
/// missing.
proof fn lemma_run_from(state: Bootstrap, tree: Tree, run: BootstrapRun)
    requires
        run == spec_bootstrap_from(state, tree),
        state matches Bootstrap::Creating(dir) ==> !tree.present.contains(dir),
    ensures
        run.tree.denied == tree.denied,
        forall|dir: BuildDir|
            #![trigger run.tree.present.contains(dir)]
            #![trigger run.created.contains(dir)]
            #![trigger tree.present.contains(dir)]
            run.tree.present.contains(dir) <==> tree.present.contains(dir)
                || run.created.contains(dir),
        forall|dir: BuildDir| #[trigger]
            run.created.contains(dir) ==> tree.grants(dir) && dir.rank() >= state.dir().rank(),
        forall|i: int, j: int|
            0 <= i < j < run.created.len() ==> (#[trigger] run.created[i]).rank() < (
            #[trigger] run.created[j]).rank(),
        run.failure is None ==> forall|dir: BuildDir|
            dir.rank() >= state.dir().rank() ==> #[trigger] run.tree.present.contains(dir),
        run.failure matches Some(failure) ==> failure is CreateDir,
        run.failure matches Some(Failure::CreateDir(stop)) ==> {
            &&& stop.rank() >= state.dir().rank()
            &&& !tree.present.contains(stop)
            &&& tree.denied.contains(stop)
            &&& forall|dir: BuildDir|
                state.dir().rank() <= dir.rank() < stop.rank()
                    ==> #[trigger] run.tree.present.contains(dir)
            &&& forall|dir: BuildDir| #[trigger]
                run.created.contains(dir) ==> dir.rank() < stop.rank()
        },
    decreases state.remaining(),
{
    let action = state.spec_pending();
    let event = tree.answer(action);
    let tree_after = tree.after(action);
    let created = if action is CreateDir && event is Done {
        seq![state.dir()]
    } else {
        Seq::empty()
    };
    assert forall|dir: BuildDir| #[trigger] created.contains(dir) <==> state is Creating && dir
        == state.dir() && tree.grants(dir) by {
        if created.len() > 0 {
            assert(created[0] == state.dir());
        }
    }
    assert forall|dir: BuildDir|
        #![trigger tree_after.present.contains(dir)]
        #![trigger tree.present.contains(dir)]
        tree_after.present.contains(dir) <==> tree.present.contains(dir) || created.contains(
            dir,
        ) by {}
    match spec_ensure_dirs_exist(state, event) {
        Progress::Continue(next, _) => {
            let rest = spec_bootstrap_from(next, tree_after);
            lemma_run_from(next, tree_after, rest);
            assert forall|dir: BuildDir|
                #![trigger run.created.contains(dir)]
                #![trigger rest.created.contains(dir)]
                run.created.contains(dir) <==> created.contains(dir) || rest.created.contains(
                    dir,
                ) by {
                lemma_contains_in_concat(created, rest.created, dir);
            }
            assert forall|i: int, j: int| 0 <= i < j < run.created.len() implies run.created[i].rank()
                < run.created[j].rank() by {
                assert(run.created[j] == rest.created[j - created.len()]);
                assert(rest.created.contains(rest.created[j - created.len()]));
                if i < created.len() {
                    assert(run.created[i] == state.dir());
                } else {
                    assert(run.created[i] == rest.created[i - created.len()]);
                }
            }
        },
        Progress::Complete(_) => {},
        Progress::Failed(_) => {},
    }
}

/// A value is in a concatenation exactly if it is in one of the parts.
proof fn lemma_contains_in_concat(a: Seq<BuildDir>, b: Seq<BuildDir>, dir: BuildDir)
    ensures
        (a + b).contains(dir) <==> a.contains(dir) || b.contains(dir),
{
    if a.contains(dir) {
        let i = choose|i: int| 0 <= i < a.len() && a[i] == dir;
        assert((a + b)[i] == dir);
    }
    if b.contains(dir) {
        let i = choose|i: int| 0 <= i < b.len() && b[i] == dir;
        assert((a + b)[a.len() + i] == dir);
    }
    if (a + b).contains(dir) {
        let i = choose|i: int| 0 <= i < (a + b).len() && (a + b)[i] == dir;
        if i < a.len() {
            assert(a[i] == dir);
        } else {
            assert(b[i - a.len()] == dir);
        }
    }
}

/// What a run of the work on the build tree does to a file system.
///
/// The run creates directories and nothing else: what exists afterwards is
/// what existed before and what the run created. It creates only what was
/// missing, each directory once and in the order of creation. It completes
/// exactly if every missing directory can be created, and then the whole
/// build tree exists. Otherwise it fails at the first missing directory
/// that cannot be created: the directories before that one exist, and
/// nothing behind it was created.
pub proof fn lemma_bootstrap_outcome(tree: Tree)
    ensures
        spec_bootstrap(tree).tree.denied == tree.denied,
        forall|dir: BuildDir|
            #![trigger spec_bootstrap(tree).tree.present.contains(dir)]
            #![trigger spec_bootstrap(tree).created.contains(dir)]
            #![trigger tree.present.contains(dir)]
            spec_bootstrap(tree).tree.present.contains(dir) <==> tree.present.contains(dir)
                || spec_bootstrap(tree).created.contains(dir),
        forall|dir: BuildDir| #[trigger]
            spec_bootstrap(tree).created.contains(dir) ==> tree.grants(dir),
        forall|i: int, j: int|
            0 <= i < j < spec_bootstrap(tree).created.len() ==> (#[trigger] spec_bootstrap(
                tree,
            ).created[i]).rank() < (#[trigger] spec_bootstrap(tree).created[j]).rank(),
        spec_bootstrap(tree).failure is None <==> forall|dir: BuildDir|
            tree.present.contains(dir) || #[trigger] tree.grants(dir),
        spec_bootstrap(tree).failure is None ==> spec_bootstrap(tree).tree.complete(),
        spec_bootstrap(tree).failure matches Some(failure) ==> failure is CreateDir,
        spec_bootstrap(tree).failure matches Some(Failure::CreateDir(stop)) ==> {
            &&& !tree.present.contains(stop)
            &&& tree.denied.contains(stop)
            &&& forall|dir: BuildDir|
                dir.rank() < stop.rank() ==> #[trigger] spec_bootstrap(tree).tree.present.contains(
                    dir,
                )
            &&& forall|dir: BuildDir| #[trigger]
                spec_bootstrap(tree).created.contains(dir) ==> dir.rank() < stop.rank()
        },
{
    let run = spec_bootstrap(tree);
    lemma_run_from(spec_begin().0, tree, run);
    match run.failure {
        None => {
            assert forall|dir: BuildDir| tree.present.contains(dir) || #[trigger] tree.grants(
                dir,
            ) by {
                assert(run.tree.present.contains(dir));
            }
        },
        Some(Failure::CreateDir(stop)) => {
            assert(!tree.present.contains(stop) && !tree.grants(stop));
        },
        Some(_) => {},
    }
}

/// Running the work on the build tree twice in succession does no more
/// than running it once.
///
/// After a run that completed, a second run on the file system that the
/// first one left completes too, creates no directory, and leaves the file
/// system as it found it.
pub proof fn lemma_bootstrap_is_idempotent(tree: Tree)
    requires
        spec_bootstrap(tree).failure is None,
    ensures
        ({
            let first = spec_bootstrap(tree);
            let second = spec_bootstrap(first.tree);
            &&& second.failure is None
            &&& second.created == Seq::<BuildDir>::empty()
            &&& second.tree == first.tree
        }),
{
    let first = spec_bootstrap(tree);
    let second = spec_bootstrap(first.tree);
    lemma_bootstrap_outcome(tree);
    lemma_bootstrap_outcome(first.tree);
    assert forall|dir: BuildDir| first.tree.present.contains(dir) || #[trigger] first.tree.grants(
        dir,
    ) by {}
    if second.created.len() > 0 {
        assert(second.created.contains(second.created[0]));
    }
    assert(second.created =~= Seq::<BuildDir>::empty());
    assert(second.tree.present =~= first.tree.present);
}

} // verus!
