//! Call graphs of compiled packages.
//!
//! The core is the extractor: given the files of a directory and the raw
//! call edges of the bitcode module in each, `extract_calls` returns the flat
//! list of (caller, callee) pairs of demangled names, without the edges that
//! touch runtime or standard-library internals. Around it stands the
//! compiler driver, a state machine that decides the order of compilation,
//! relocation of the artifacts and cleanup, and what a cycle ends with.
//!
//! Nothing here opens a file or starts a process: the caller does that and
//! hands in what it found.

pub mod artifact;
pub mod demangle;
pub mod driver;
pub mod error;
pub mod extract;
pub mod filter;
pub mod text;
pub mod toolchain;

pub use artifact::{is_bitcode_file, Artifact};
pub use driver::{compile_crate, Action, Driver, Event, Stage};
pub use error::{Error, ProcessOutput};
pub use extract::extract_calls;
pub use filter::accept;
pub use toolchain::clean;
