//! What the compiler driver says to the toolchain and what it makes of the
//! answers: the two command lines, the name of the store subdirectory, the
//! diagnostics of a failed compilation and the verdict of the clean stage.

use crate::error::{Error, ProcessOutput};
use vstd::pervasive::unreached;
use vstd::prelude::*;
use vstd::string::StringExecFns;
use vstd::utf8::{decode_utf8, valid_utf8};

verus! {

/// A program and the arguments it is started with.
#[derive(Debug)]
pub struct CommandLine {
    pub program: String,
    pub args: Vec<String>,
}

/// The program that stands for the toolchain.
pub open spec fn toolchain_program() -> Seq<char> {
    "cargo"@
}

/// The arguments of a compilation: an optimised build of the library target
/// alone, with debug information kept, bitcode emitted and link-time
/// optimisation switched off, so that calls across modules are not inlined
/// away.
pub open spec fn compile_args() -> Seq<Seq<char>> {
    seq![
        "+1.67"@,
        "rustc"@,
        "--release"@,
        "--lib"@,
        "--"@,
        "-g"@,
        "--emit=llvm-bc"@,
        "-C"@,
        "lto=off"@,
    ]
}

/// The arguments of the toolchain's clean operation.
pub open spec fn clean_args() -> Seq<Seq<char>> {
    seq!["+1.60"@, "clean"@]
}

/// The directory below the source tree that holds the toolchain's build
/// output.
pub open spec fn build_output_name() -> Seq<char> {
    "target"@
}

/// The name of the subdirectory of the bitcode store that takes the
/// artifacts of a package: its name, a hyphen, its version.
pub open spec fn subdir_name(name: Seq<char>, version: Seq<char>) -> Seq<char> {
    name + seq!['-'] + version
}

/// What separates the two output streams in the diagnostics of a failed
/// compilation.
pub open spec fn stream_separator() -> Seq<char> {
    "\n-----------\n"@
}

/// The diagnostics of a failed compilation: the text of its standard output,
/// the separator, the text of its standard error, each stream verbatim.
pub open spec fn failure_text(stdout: Seq<u8>, stderr: Seq<u8>) -> Seq<char> {
    decode_utf8(stdout) + stream_separator() + decode_utf8(stderr)
}

/// The command line of a compilation, to be run in the package's source tree.
pub fn compile_command() -> (cmd: CommandLine)
    ensures
        cmd.program@ == toolchain_program(),
        cmd.args.deep_view() == compile_args(),
{
    let mut args: Vec<String> = Vec::new();
    args.push("+1.67".to_owned());
    args.push("rustc".to_owned());
    args.push("--release".to_owned());
    args.push("--lib".to_owned());
    args.push("--".to_owned());
    args.push("-g".to_owned());
    args.push("--emit=llvm-bc".to_owned());
    args.push("-C".to_owned());
    args.push("lto=off".to_owned());
    CommandLine { program: "cargo".to_owned(), args }
}

/// The command line of the clean operation, to be run in the package's source
/// tree.
pub fn clean_command() -> (cmd: CommandLine)
    ensures
        cmd.program@ == toolchain_program(),
        cmd.args.deep_view() == clean_args(),
{
    let mut args: Vec<String> = Vec::new();
    args.push("+1.60".to_owned());
    args.push("clean".to_owned());
    CommandLine { program: "cargo".to_owned(), args }
}

/// The name of the build-output directory that the clean stage removes.
pub fn build_output_dir() -> (dir: String)
    ensures
        dir@ == build_output_name(),
{
    "target".to_owned()
}

/// The name of the store subdirectory for the package `name` at `version`.
pub fn store_subdir(name: &str, version: &str) -> (dir: String)
    ensures
        dir@ == subdir_name(name@, version@),
{
    proof {
        reveal_strlit("-");
    }
    name.to_owned().concat("-").concat(version)
}

/// `std::str::from_utf8`, with the text copied into a `String`. The standard
/// library accepts exactly the byte strings that are valid UTF-8 and reads
/// them as the characters they encode; anything else is `None`.
#[verifier::external_body]
pub(crate) fn utf8_text(bytes: &Vec<u8>) -> (text: Option<String>)
    ensures
        text is Some <==> valid_utf8(bytes@),
        text matches Some(t) ==> t@ == decode_utf8(bytes@),
{
    match std::str::from_utf8(bytes) {
        Ok(text) => Some(text.to_owned()),
        Err(_) => None,
    }
}

/// The diagnostics of the compilation that left `compiled` behind, if both
/// of its output streams are text; `None` if either is not valid UTF-8.
pub fn failure_message(compiled: &ProcessOutput) -> (msg: Option<String>)
    ensures
        msg is Some <==> valid_utf8(compiled.stdout@) && valid_utf8(compiled.stderr@),
        msg matches Some(text) ==> text@ == failure_text(compiled.stdout@, compiled.stderr@),
{
    let out = match utf8_text(&compiled.stdout) {
        Some(out) => out,
        None => {
            return None;
        },
    };
    let err = match utf8_text(&compiled.stderr) {
        Some(err) => err,
        None => {
            return None;
        },
    };
    Some(out.concat("\n-----------\n").concat(err.as_str()))
}

/// The error of a failed compilation, carrying both output streams as text.
pub fn compile_failure(compiled: &ProcessOutput) -> (err: Error)
    requires
        valid_utf8(compiled.stdout@),
        valid_utf8(compiled.stderr@),
    ensures
        err matches Error::CompileFailed(text) && text@ == failure_text(
            compiled.stdout@,
            compiled.stderr@,
        ),
{
    match failure_message(compiled) {
        Some(text) => Error::CompileFailed(text),
        None => unreached(),
    }
}

/// The verdict of the clean stage, from the output of the clean command:
/// success if and only if the command ended successfully; otherwise the
/// failure carries that output, unchanged.
pub fn clean(output: ProcessOutput) -> (res: Result<(), Error>)
    ensures
        output.succeeded() ==> res == Ok::<(), Error>(()),
        !output.succeeded() ==> res == Err::<(), Error>(Error::CleanFailure(output)),
{
    if output.success() {
        Ok(())
    } else {
        Err(Error::CleanFailure(output))
    }
}

} // verus!
