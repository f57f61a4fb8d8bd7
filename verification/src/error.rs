//! The errors of compilation, cleanup and extraction, and the captured output
//! of a toolchain run that some of them carry.

use vstd::prelude::*;
use vstd::std_specs::convert::FromSpecImpl;
use vstd::string::StringExecFns;

verus! {

/// `std::io::Error`, carried through unread.
#[verifier::external_type_specification]
#[verifier::external_body]
pub struct ExIoError(std::io::Error);

/// What a finished toolchain process left behind: its exit code, if it
/// exited by itself, and the bytes it wrote to its two output streams.
#[derive(Debug)]
pub struct ProcessOutput {
    pub code: Option<i32>,
    pub stdout: Vec<u8>,
    pub stderr: Vec<u8>,
}

impl ProcessOutput {
    /// The process ended successfully: it exited by itself, with code zero.
    pub open spec fn succeeded(&self) -> bool {
        self.code == Some(0i32)
    }

    /// Whether the process ended successfully.
    pub fn success(&self) -> (ok: bool)
        ensures
            ok == self.succeeded(),
    {
        match self.code {
            Some(code) => code == 0,
            None => false,
        }
    }
}

/// Top error type returned during any stage of analysis, from compilation to
/// extraction.
#[derive(Debug)]
pub enum Error {
    /// A filesystem operation failed.
    IoError(std::io::Error),
    /// A bitcode module failed to load.
    LLVMError(String),
    /// The toolchain reported a compile failure; holds both output streams.
    CompileFailed(String),
    /// The clean invocation reported a failure; holds its captured output.
    CleanFailure(ProcessOutput),
}

impl Error {
    /// The text that introduces the message of an I/O error.
    pub open spec fn io_prefix() -> Seq<char> {
        "IO Error: "@
    }

    /// The text that introduces the message of a module that failed to load.
    pub open spec fn llvm_prefix() -> Seq<char> {
        "LLVM IR failure: "@
    }

    /// The text that introduces the message of a failed compilation.
    pub open spec fn compile_prefix() -> Seq<char> {
        "Compilation Failure: "@
    }

    /// The whole message of a failed clean stage.
    pub open spec fn clean_text() -> Seq<char> {
        "Clean stage failed"@
    }

    /// The message of the error, for display. An I/O error is shown by the
    /// text the standard library writes for it, after the prefix; that text is
    /// not specified here.
    pub fn message(&self) -> (msg: String)
        ensures
            match *self {
                Error::IoError(_) => Self::io_prefix().is_prefix_of(msg@),
                Error::LLVMError(detail) => msg@ == Self::llvm_prefix() + detail@,
                Error::CompileFailed(detail) => msg@ == Self::compile_prefix() + detail@,
                Error::CleanFailure(_) => msg@ == Self::clean_text(),
            },
    {
        match self {
            Error::IoError(cause) => {
                let detail = cause.to_string();
                "IO Error: ".to_owned().concat(detail.as_str())
            },
            Error::LLVMError(detail) => "LLVM IR failure: ".to_owned().concat(detail.as_str()),
            Error::CompileFailed(detail) => "Compilation Failure: ".to_owned().concat(
                detail.as_str(),
            ),
            Error::CleanFailure(_) => "Clean stage failed".to_owned(),
        }
    }
}

impl From<std::io::Error> for Error {
    fn from(cause: std::io::Error) -> (err: Error) {
        Error::IoError(cause)
    }
}

impl FromSpecImpl<std::io::Error> for Error {
    open spec fn obeys_from_spec() -> bool {
        true
    }

    open spec fn from_spec(cause: std::io::Error) -> Error {
        Error::IoError(cause)
    }
}

} // verus!
