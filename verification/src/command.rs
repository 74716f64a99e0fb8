//! The command lines of the outside tools that grade the exercises.

use vstd::prelude::*;
use vstd::string::*;
use crate::grading::Step;

verus! {

/// The name of a project's manifest file.
pub const MANIFEST_FILE: &'static str = "Cargo.toml";

/// The manifest of the throwaway project in which a single file is linted.
pub const LINT_MANIFEST: &'static str =
    "[package]\nname = \"clippy_check\"\nversion = \"0.1.0\"\nedition = \"2021\"\n\n[[bin]]\nname = \"clippy_check\"\npath = \"src/main.rs\"\n";

/// The directory, in the throwaway project, that holds the file to lint.
pub const LINT_SOURCE_DIR: &'static str = "src";

/// The name under which the file to lint is copied into the throwaway project.
pub const LINT_SOURCE_FILE: &'static str = "main.rs";

/// The directory into which exercise binaries are compiled, with the slash
/// that separates it from the binary's name.
pub const BINARY_DIR: &'static str = "target/debug/";

/// A program and the arguments it is run with.
#[derive(Debug)]
pub struct CommandLine {
    /// The program to run.
    pub program: String,
    /// Its arguments, in order.
    pub args: Vec<String>,
}

/// What a `CommandLine` stands for.
pub struct CommandView {
    pub program: Seq<char>,
    pub args: Seq<Seq<char>>,
}

impl View for CommandLine {
    type V = CommandView;

    open spec fn view(&self) -> CommandView {
        CommandView { program: self.program@, args: self.args@.map_values(|a: String| a@) }
    }
}

/// The path to which the exercise named `name` is compiled.
pub open spec fn binary_of(name: Seq<char>) -> Seq<char> {
    BINARY_DIR@ + name
}

/// The command that runs a course's whole test suite, in release mode, from
/// the manifest at `manifest`.
pub open spec fn unit_test_command_of(manifest: Seq<char>) -> CommandView {
    CommandView {
        program: "cargo"@,
        args: seq!["test"@, "--manifest-path"@, manifest, "--release"@],
    }
}

/// The command that asks a course for the summary of its exercises.
pub open spec fn summary_command_of() -> CommandView {
    CommandView { program: "xmake"@, args: seq!["run"@, "summary"@] }
}

/// The command that lints the project with the manifest at `manifest`, with
/// every warning counted as an error.
pub open spec fn lint_command_of(manifest: Seq<char>) -> CommandView {
    CommandView {
        program: "cargo"@,
        args: seq!["clippy"@, "--manifest-path"@, manifest, "--"@, "-D"@, "warnings"@],
    }
}

/// The command that compiles the exercise at `path`, named `name`, as a test
/// binary.
pub open spec fn compile_command_of(path: Seq<char>, name: Seq<char>) -> CommandView {
    CommandView { program: "rustc"@, args: seq![path, "--test"@, "-o"@, binary_of(name)] }
}

/// The command that runs the compiled exercise named `name`.
pub open spec fn execute_command_of(name: Seq<char>) -> CommandView {
    CommandView { program: binary_of(name), args: Seq::empty() }
}

/// The command of one step of grading the exercise at `path`, named `name`;
/// the lint runs on the manifest at `lint_manifest`.
pub open spec fn step_command_of(
    step: Step,
    path: Seq<char>,
    name: Seq<char>,
    lint_manifest: Seq<char>,
) -> CommandView {
    match step {
        Step::Lint => lint_command_of(lint_manifest),
        Step::Compile => compile_command_of(path, name),
        Step::Execute => execute_command_of(name),
    }
}

/// Makes a command line from a program and its arguments.
fn command_line(program: &str, args: Vec<String>) -> (command: CommandLine)
    ensures
        command@.program == program@,
        command@.args == args@.map_values(|a: String| a@),
{
    CommandLine { program: program.to_owned(), args }
}

/// The path to which the exercise named `name` is compiled.
pub fn binary_path(name: &str) -> (path: String)
    ensures
        path@ == binary_of(name@),
{
    BINARY_DIR.to_owned().concat(name)
}

/// The command that runs a course's whole test suite.
pub fn unit_test_command(manifest: &str) -> (command: CommandLine)
    ensures
        command@ == unit_test_command_of(manifest@),
{
    let mut args: Vec<String> = Vec::new();
    args.push("test".to_owned());
    args.push("--manifest-path".to_owned());
    args.push(manifest.to_owned());
    args.push("--release".to_owned());
    let command = command_line("cargo", args);
    assert(command@.args =~= unit_test_command_of(manifest@).args);
    command
}

/// The command that asks a course for the summary of its exercises.
pub fn summary_command() -> (command: CommandLine)
    ensures
        command@ == summary_command_of(),
{
    let mut args: Vec<String> = Vec::new();
    args.push("run".to_owned());
    args.push("summary".to_owned());
    let command = command_line("xmake", args);
    assert(command@.args =~= summary_command_of().args);
    command
}

/// The command that lints the project with the manifest at `manifest`.
pub fn lint_command(manifest: &str) -> (command: CommandLine)
    ensures
        command@ == lint_command_of(manifest@),
{
    let mut args: Vec<String> = Vec::new();
    args.push("clippy".to_owned());
    args.push("--manifest-path".to_owned());
    args.push(manifest.to_owned());
    args.push("--".to_owned());
    args.push("-D".to_owned());
    args.push("warnings".to_owned());
    let command = command_line("cargo", args);
    assert(command@.args =~= lint_command_of(manifest@).args);
    command
}

/// The command that compiles the exercise at `path`, named `name`.
pub fn compile_command(path: &str, name: &str) -> (command: CommandLine)
    ensures
        command@ == compile_command_of(path@, name@),
{
    let mut args: Vec<String> = Vec::new();
    args.push(path.to_owned());
    args.push("--test".to_owned());
    args.push("-o".to_owned());
    args.push(binary_path(name));
    let command = command_line("rustc", args);
    assert(command@.args =~= compile_command_of(path@, name@).args);
    command
}

/// The command that runs the compiled exercise named `name`.
pub fn execute_command(name: &str) -> (command: CommandLine)
    ensures
        command@ == execute_command_of(name@),
{
    let program = binary_path(name);
    let command = CommandLine { program, args: Vec::new() };
    assert(command@.args =~= execute_command_of(name@).args);
    command
}

/// The command of one step of grading the exercise at `path`, named `name`.
pub fn step_command(step: Step, path: &str, name: &str, lint_manifest: &str) -> (command:
    CommandLine)
    ensures
        command@ == step_command_of(step, path@, name@, lint_manifest@),
{
    match step {
        Step::Lint => lint_command(lint_manifest),
        Step::Compile => compile_command(path, name),
        Step::Execute => execute_command(name),
    }
}

} // verus!
