//! The external programs that the launcher runs, as data.
//!
//! Nothing here starts a process. A [`Command`] says which program is to be
//! run with which arguments; running it is left to the caller.

use vstd::prelude::*;
use crate::layout::{ASM_FILE, BIN_FILE, OBJ_FILE};

verus! {

/// The program whose presence on the search path decides whether anything
/// is built at all.
pub const ASSEMBLER: &'static str = "nasm";

/// The program that links the object file.
pub const LINKER: &'static str = "ld";

/// A program to run: its name or path, and its arguments in order.
#[derive(Clone, Debug, PartialEq, Eq)]
pub struct Command {
    /// Name of the program, looked up on the search path, or a path to it.
    pub program: String,
    /// The arguments, without the program's own name.
    pub args: Vec<String>,
    /// Whether what the program writes to its standard output is thrown
    /// away. Otherwise the program inherits the launcher's standard output.
    pub discard_stdout: bool,
}

/// What a [`Command`] holds, as plain text.
pub ghost struct CommandView {
    pub program: Seq<char>,
    pub args: Seq<Seq<char>>,
    pub discard_stdout: bool,
}

impl View for Command {
    type V = CommandView;

    open spec fn view(&self) -> CommandView {
        CommandView {
            program: self.program@,
            args: self.args.deep_view(),
            discard_stdout: self.discard_stdout,
        }
    }
}

/// One stage of the build-and-run sequence.
#[derive(Clone, Copy, Debug, PartialEq, Eq, Hash)]
pub enum Stage {
    /// The assembler turns the source into an object file.
    Assemble,
    /// The linker turns the object file into a binary.
    Link,
    /// The binary is run.
    Execute,
}

impl Stage {
    /// The command of the stage:
    /// `nasm -f elf64 -o build/obj/out.o build/asm/out.asm`, then
    /// `ld -s -o build/bin/out build/obj/out.o`, then `./build/bin/out`.
    pub open spec fn spec_command(self) -> CommandView {
        match self {
            Stage::Assemble => CommandView {
                program: "nasm"@,
                args: seq!["-f"@, "elf64"@, "-o"@, "build/obj/out.o"@, "build/asm/out.asm"@],
                discard_stdout: false,
            },
            Stage::Link => CommandView {
                program: "ld"@,
                args: seq!["-s"@, "-o"@, "build/bin/out"@, "build/obj/out.o"@],
                discard_stdout: false,
            },
            Stage::Execute => CommandView {
                program: "./build/bin/out"@,
                args: Seq::empty(),
                discard_stdout: false,
            },
        }
    }

    /// The stage that follows this one, if any.
    pub open spec fn spec_next(self) -> Option<Stage> {
        match self {
            Stage::Assemble => Some(Stage::Link),
            Stage::Link => Some(Stage::Execute),
            Stage::Execute => None,
        }
    }

    /// The command that carries out the stage.
    ///
    /// The assembler is asked for a 64-bit ELF object, the linker for a
    /// stripped executable, and the binary is named by a path that starts
    /// with `./`, so that it is run directly and not looked up on the
    /// search path.
    pub fn command(&self) -> (command: Command)
        ensures
            command@ == self.spec_command(),
    {
        let mut args: Vec<String> = Vec::new();
        match self {
            Stage::Assemble => {
                args.push("-f".to_string());
                args.push("elf64".to_string());
                args.push("-o".to_string());
                args.push(OBJ_FILE.to_string());
                args.push(ASM_FILE.to_string());
                let command = Command {
                    program: ASSEMBLER.to_string(),
                    args,
                    discard_stdout: false,
                };
                assert(command@.args =~= self.spec_command().args);
                command
            },
            Stage::Link => {
                args.push("-s".to_string());
                args.push("-o".to_string());
                args.push(BIN_FILE.to_string());
                args.push(OBJ_FILE.to_string());
                let command = Command { program: LINKER.to_string(), args, discard_stdout: false };
                assert(command@.args =~= self.spec_command().args);
                command
            },
            Stage::Execute => {
                proof {
                    lemma_binary_in_working_dir();
                }
                let command = Command {
                    program: "./".to_string().concat(BIN_FILE),
                    args,
                    discard_stdout: false,
                };
                assert(command@.args =~= self.spec_command().args);
                command
            },
        }
    }

    /// The stage that follows this one; `None` after the last.
    pub fn next(&self) -> (next: Option<Stage>)
        ensures
            next == self.spec_next(),
    {
        match self {
            Stage::Assemble => Some(Stage::Link),
            Stage::Link => Some(Stage::Execute),
            Stage::Execute => None,
        }
    }
}

/// The path by which the binary is run is the binary's path behind `./`.
proof fn lemma_binary_in_working_dir()
    ensures
        "./"@ + BIN_FILE@ == "./build/bin/out"@,
{
    reveal_strlit("./");
    reveal_strlit("build/bin/out");
    reveal_strlit("./build/bin/out");
    assert("./"@ + BIN_FILE@ =~= "./build/bin/out"@);
}

/// Each stage reads what the stage before it wrote: the linker's input is
/// the assembler's output, and the program that is run is the linker's
/// output.
pub proof fn lemma_stages_are_chained()
    ensures
        Stage::Assemble.spec_command().args[4] == ASM_FILE@,
        Stage::Assemble.spec_command().args[3] == OBJ_FILE@,
        Stage::Link.spec_command().args[3] == Stage::Assemble.spec_command().args[3],
        Stage::Link.spec_command().args[2] == BIN_FILE@,
        Stage::Execute.spec_command().program == "./"@ + Stage::Link.spec_command().args[2],
{
    lemma_binary_in_working_dir();
}

} // verus!
