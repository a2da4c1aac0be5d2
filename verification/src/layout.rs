//! The fixed directory layout below the working directory.
//!
//! Every path is relative to the working directory of the process and none
//! of them is configurable.

use vstd::prelude::*;

verus! {

/// The build root.
pub const BUILD_DIR: &'static str = "build";

/// The assembly source that is assembled, linked and run.
pub const ASM_FILE: &'static str = "build/asm/out.asm";

/// The object file that the assembler writes and the linker reads.
pub const OBJ_FILE: &'static str = "build/obj/out.o";

/// The binary that the linker writes and that is finally run.
pub const BIN_FILE: &'static str = "build/bin/out";

/// A directory of the build tree.
///
/// The variants are declared in the order in which the directories are
/// looked at and, where missing, created: the root before what lies in it.
#[derive(Clone, Copy, Debug, PartialEq, Eq, Hash)]
pub enum BuildDir {
    /// `build`
    Root,
    /// `build/asm`, which holds the assembly source.
    Asm,
    /// `build/obj`, which receives the object file.
    Obj,
    /// `build/bin`, which receives the binary.
    Bin,
}

impl BuildDir {
    /// The path of the directory.
    pub open spec fn spec_path(self) -> Seq<char> {
        match self {
            BuildDir::Root => "build"@,
            BuildDir::Asm => "build/asm"@,
            BuildDir::Obj => "build/obj"@,
            BuildDir::Bin => "build/bin"@,
        }
    }

    /// The position of the directory in the order of creation.
    pub open spec fn rank(self) -> nat {
        match self {
            BuildDir::Root => 0,
            BuildDir::Asm => 1,
            BuildDir::Obj => 2,
            BuildDir::Bin => 3,
        }
    }

    /// The directory that is handled after this one, if any.
    pub open spec fn spec_next(self) -> Option<BuildDir> {
        match self {
            BuildDir::Root => Some(BuildDir::Asm),
            BuildDir::Asm => Some(BuildDir::Obj),
            BuildDir::Obj => Some(BuildDir::Bin),
            BuildDir::Bin => None,
        }
    }

    /// All directories of the build tree, in the order of creation.
    pub open spec fn order() -> Seq<BuildDir> {
        seq![BuildDir::Root, BuildDir::Asm, BuildDir::Obj, BuildDir::Bin]
    }

    /// The path of the directory, relative to the working directory.
    pub fn path(&self) -> (path: String)
        ensures
            path@ == self.spec_path(),
    {
        proof {
            lemma_subdir_paths();
        }
        match self {
            BuildDir::Root => BUILD_DIR.to_string(),
            BuildDir::Asm => below_build_dir("asm"),
            BuildDir::Obj => below_build_dir("obj"),
            BuildDir::Bin => below_build_dir("bin"),
        }
    }

    /// The directory that is handled first.
    pub fn first() -> (dir: BuildDir)
        ensures
            dir == BuildDir::order()[0],
            dir.rank() == 0,
    {
        BuildDir::Root
    }

    /// The directory that is handled after this one; `None` after the last.
    pub fn next(&self) -> (next: Option<BuildDir>)
        ensures
            next == self.spec_next(),
            next matches Some(dir) ==> dir.rank() == self.rank() + 1,
            next is None <==> self.rank() + 1 == BuildDir::order().len(),
    {
        match self {
            BuildDir::Root => Some(BuildDir::Asm),
            BuildDir::Asm => Some(BuildDir::Obj),
            BuildDir::Obj => Some(BuildDir::Bin),
            BuildDir::Bin => None,
        }
    }
}

/// The path of the entry `name` of the build root.
fn below_build_dir(name: &str) -> (path: String)
    ensures
        path@ == BUILD_DIR@ + "/"@ + name@,
{
    BUILD_DIR.to_string().concat("/").concat(name)
}

/// The build root, a slash and the name of a subdirectory make up the
/// subdirectory's path.
proof fn lemma_subdir_paths()
    ensures
        BUILD_DIR@ + "/"@ + "asm"@ == BuildDir::Asm.spec_path(),
        BUILD_DIR@ + "/"@ + "obj"@ == BuildDir::Obj.spec_path(),
        BUILD_DIR@ + "/"@ + "bin"@ == BuildDir::Bin.spec_path(),
{
    reveal_strlit("build");
    reveal_strlit("/");
    reveal_strlit("asm");
    reveal_strlit("obj");
    reveal_strlit("bin");
    reveal_strlit("build/asm");
    reveal_strlit("build/obj");
    reveal_strlit("build/bin");
    assert(BUILD_DIR@ + "/"@ + "asm"@ =~= BuildDir::Asm.spec_path());
    assert(BUILD_DIR@ + "/"@ + "obj"@ =~= BuildDir::Obj.spec_path());
    assert(BUILD_DIR@ + "/"@ + "bin"@ =~= BuildDir::Bin.spec_path());
}

/// Each directory stands at its rank in the order of creation, and the
/// order holds every directory once.
pub proof fn lemma_order_is_complete(dir: BuildDir)
    ensures
        BuildDir::order().len() == 4,
        dir.rank() < BuildDir::order().len(),
        BuildDir::order()[dir.rank() as int] == dir,
        forall|i: int|
            0 <= i < BuildDir::order().len() ==> (#[trigger] BuildDir::order()[i]).rank() == i,
{
}

/// The three files lie directly in the directories that are made for them:
/// the source in `build/asm`, the object file in `build/obj`, the binary in
/// `build/bin`.
pub proof fn lemma_files_lie_in_build_dirs()
    ensures
        ASM_FILE@ == BuildDir::Asm.spec_path() + "/out.asm"@,
        OBJ_FILE@ == BuildDir::Obj.spec_path() + "/out.o"@,
        BIN_FILE@ == BuildDir::Bin.spec_path() + "/out"@,
{
    reveal_strlit("build/asm/out.asm");
    reveal_strlit("build/obj/out.o");
    reveal_strlit("build/bin/out");
    reveal_strlit("build/asm");
    reveal_strlit("build/obj");
    reveal_strlit("build/bin");
    reveal_strlit("/out.asm");
    reveal_strlit("/out.o");
    reveal_strlit("/out");
    assert(ASM_FILE@ =~= BuildDir::Asm.spec_path() + "/out.asm"@);
    assert(OBJ_FILE@ =~= BuildDir::Obj.spec_path() + "/out.o"@);
    assert(BIN_FILE@ =~= BuildDir::Bin.spec_path() + "/out"@);
}

} // verus!
