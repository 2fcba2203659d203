//! The record of a file opened from the command line.

use vstd::prelude::*;

verus! {

/// A file that was named on the command line, found on disk and read as text.
#[derive(Clone, Debug, PartialEq, Eq)]
pub struct ResolvedFile {
    /// Absolute path of the file.
    pub path: String,
    /// Final component of the path, empty where the path has none.
    pub name: String,
    /// The whole text of the file.
    pub content: String,
}

/// The mathematical value of a [`ResolvedFile`].
pub struct FileView {
    pub path: Seq<char>,
    pub name: Seq<char>,
    pub content: Seq<char>,
}

impl View for ResolvedFile {
    type V = FileView;

    open spec fn view(&self) -> FileView {
        FileView { path: self.path@, name: self.name@, content: self.content@ }
    }
}

/// The mathematical value of a file that may be absent.
pub open spec fn option_view(file: Option<ResolvedFile>) -> Option<FileView> {
    match file {
        Some(f) => Some(f@),
        None => None,
    }
}

} // verus!
