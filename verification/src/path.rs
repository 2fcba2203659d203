//! The display name of a file: the final component of its path.

use vstd::prelude::*;

verus! {

/// The final component of a path, as the standard library's
/// `Path::file_name` tells it for the path syntax of the platform that the
/// library is built for: the name of the file or directory that the path
/// ends in, and nothing where the path ends in `..` or is a root.
pub uninterp spec fn file_name_of(path: Seq<char>) -> Option<Seq<char>>;

/// The text of an optional string.
pub open spec fn option_text(text: Option<String>) -> Option<Seq<char>> {
    match text {
        Some(t) => Some(t@),
        None => None,
    }
}

/// Calls `std::path::Path::file_name` on `path`. Nothing is proved of it:
/// the contract only gives its result the name [`file_name_of`], which
/// claims that the result depends on the text of the path alone.
#[verifier::external_body]
pub(crate) fn final_component(path: &str) -> (name: Option<String>)
    ensures
        option_text(name) == file_name_of(path@),
{
    std::path::Path::new(path).file_name().map(|n| n.to_string_lossy().into_owned())
}

} // verus!
