//! Bitcode artifacts: which files of a directory count as one, and what the
//! extractor is told about each file.

use crate::text::chars_of;
use vstd::prelude::*;

verus! {

/// A file name has the bitcode extension when it ends in `.bc` and something
/// stands before that dot: the part after the last dot of the name is `bc`,
/// and a name that is nothing but a dot and `bc` is a hidden file without an
/// extension.
pub open spec fn is_bitcode_name(name: Seq<char>) -> bool {
    &&& name.len() > 3
    &&& name[name.len() - 3] == '.'
    &&& name[name.len() - 2] == 'b'
    &&& name[name.len() - 1] == 'c'
}

/// Whether the file called `name` is a bitcode artifact. `name` is the last
/// component of the file's path, without any directory.
pub fn is_bitcode_file(name: &str) -> (yes: bool)
    ensures
        yes == is_bitcode_name(name@),
{
    let chars = chars_of(name);
    let n: usize = chars.len();
    n > 3 && chars[n - 3] == '.' && chars[n - 2] == 'b' && chars[n - 1] == 'c'
}

/// One file of the scanned directory: its name, and the raw edges of the call
/// graph of the module it holds, each a pair of caller and callee symbol.
/// For a file that is not a bitcode artifact the edges are left empty; they
/// are never looked at.
#[derive(Debug)]
pub struct Artifact {
    pub file_name: String,
    pub edges: Vec<(String, String)>,
}

/// An `Artifact` as plain sequences of characters.
pub struct ArtifactView {
    pub file_name: Seq<char>,
    pub edges: Seq<(Seq<char>, Seq<char>)>,
}

impl View for Artifact {
    type V = ArtifactView;

    open spec fn view(&self) -> ArtifactView {
        ArtifactView { file_name: self.file_name@, edges: self.edges.deep_view() }
    }
}

impl DeepView for Artifact {
    type V = ArtifactView;

    open spec fn deep_view(&self) -> ArtifactView {
        self@
    }
}

} // verus!
