use asm_launcher::layout::{BuildDir, ASM_FILE, BIN_FILE, BUILD_DIR, OBJ_FILE};
use asm_launcher::probe::{is_nasm_installed, probe_command, LOCATOR};
use asm_launcher::protocol::{Action, ChildStatus, Event, Failure};
use asm_launcher::toolchain::{Stage, ASSEMBLER, LINKER};

#[test]
fn fixed_paths_are_as_documented() {
    assert_eq!(BUILD_DIR, "build");
    assert_eq!(ASM_FILE, "build/asm/out.asm");
    assert_eq!(OBJ_FILE, "build/obj/out.o");
    assert_eq!(BIN_FILE, "build/bin/out");
}

#[test]
fn build_dir_paths() {
    assert_eq!(BuildDir::Root.path(), "build");
    assert_eq!(BuildDir::Asm.path(), "build/asm");
    assert_eq!(BuildDir::Obj.path(), "build/obj");
    assert_eq!(BuildDir::Bin.path(), "build/bin");
}

#[test]
fn build_dirs_come_root_first() {
    let mut seen = vec![BuildDir::first()];
    while let Some(next) = seen[seen.len() - 1].next() {
        seen.push(next);
        assert!(seen.len() <= 4);
    }
    assert_eq!(seen, vec![BuildDir::Root, BuildDir::Asm, BuildDir::Obj, BuildDir::Bin]);
}

#[test]
fn files_lie_in_the_directories_made_for_them() {
    assert_eq!(ASM_FILE, format!("{}/out.asm", BuildDir::Asm.path()));
    assert_eq!(OBJ_FILE, format!("{}/out.o", BuildDir::Obj.path()));
    assert_eq!(BIN_FILE, format!("{}/out", BuildDir::Bin.path()));
}

#[test]
fn tool_names() {
    assert_eq!(ASSEMBLER, "nasm");
    assert_eq!(LINKER, "ld");
    assert_eq!(LOCATOR, "which");
}

#[test]
fn probe_command_is_which_nasm_without_output() {
    let command = probe_command();
    assert_eq!(command.program, "which");
    assert_eq!(command.args, vec!["nasm".to_string()]);
    assert!(command.discard_stdout);
}

#[test]
fn assemble_command_asks_for_elf64_object() {
    let command = Stage::Assemble.command();
    assert_eq!(command.program, "nasm");
    assert_eq!(command.args, vec!["-f", "elf64", "-o", "build/obj/out.o", "build/asm/out.asm"]);
    assert!(!command.discard_stdout);
}

#[test]
fn link_command_asks_for_stripped_binary() {
    let command = Stage::Link.command();
    assert_eq!(command.program, "ld");
    assert_eq!(command.args, vec!["-s", "-o", "build/bin/out", "build/obj/out.o"]);
    assert!(!command.discard_stdout);
}

#[test]
fn execute_command_runs_binary_directly() {
    let command = Stage::Execute.command();
    assert_eq!(command.program, "./build/bin/out");
    assert!(command.args.is_empty());
    assert!(!command.discard_stdout);
}

#[test]
fn stages_follow_each_other() {
    assert_eq!(Stage::Assemble.next(), Some(Stage::Link));
    assert_eq!(Stage::Link.next(), Some(Stage::Execute));
    assert_eq!(Stage::Execute.next(), None);
}

#[test]
fn probe_answer_success_means_installed() {
    let status = ChildStatus { success: true, code: Some(0) };
    assert_eq!(is_nasm_installed(Event::Exited(status)), Ok(true));
}

#[test]
fn probe_answer_failure_means_not_installed() {
    let status = ChildStatus { success: false, code: Some(1) };
    assert_eq!(is_nasm_installed(Event::Exited(status)), Ok(false));
    let killed = ChildStatus { success: false, code: None };
    assert_eq!(is_nasm_installed(Event::Exited(killed)), Ok(false));
}

#[test]
fn probe_that_cannot_run_is_a_failure() {
    assert_eq!(is_nasm_installed(Event::Failed), Err(Failure::Probe));
}

#[test]
fn probe_rejects_other_events() {
    assert_eq!(is_nasm_installed(Event::Done), Err(Failure::UnexpectedEvent));
    assert_eq!(is_nasm_installed(Event::Exists(true)), Err(Failure::UnexpectedEvent));
}

#[test]
fn failure_messages() {
    assert_eq!(Failure::ChangeDir.message(), "Failed to set rootdir to specified dir");
    assert_eq!(Failure::Probe.message(), "Failed to check if nasm is installed");
    assert_eq!(Failure::CreateDir(BuildDir::Obj).message(), "Failed to create directories");
    assert_eq!(Failure::Spawn(Stage::Link).message(), "Failed to execute asm file");
    assert_eq!(Failure::NoExitCode.message(), "The executed binary ended without an exit code");
    assert_eq!(Failure::UnexpectedEvent.message(), "Unexpected event for the pending action");
}

#[test]
fn missing_source_message_names_the_path() {
    let message = Failure::MissingSource.message();
    assert_eq!(message, "Could not find output asm file at path: build/asm/out.asm");
    assert!(message.ends_with(ASM_FILE));
}

#[test]
fn only_exit_and_abort_are_final() {
    assert!(Action::Exit(0).is_final());
    assert!(Action::Abort(Failure::Probe).is_final());
    assert!(!Action::Probe.is_final());
    assert!(!Action::CheckSource.is_final());
    assert!(!Action::ChangeDir("x".to_string()).is_final());
    assert!(!Action::CheckDir(BuildDir::Root).is_final());
    assert!(!Action::CreateDir(BuildDir::Bin).is_final());
    assert!(!Action::Spawn(Stage::Execute).is_final());
}
