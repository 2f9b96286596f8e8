//! Host paths, held as text. The library runs where Unix sockets are, so
//! paths are joined and printed as Unix does.

use vstd::prelude::*;

verus! {

/// The text of the path `base` with the path `part` joined onto it.
pub uninterp spec fn joined(base: Seq<char>, part: Seq<char>) -> Seq<char>;

/// The text of a path as it is quoted in a diagnostic.
pub uninterp spec fn quoted(path: Seq<char>) -> Seq<char>;

/// Joins `part` onto `base` with `std::path::Path::join`.
///
/// Trusted: the result is taken to be a function of the two texts alone. Both
/// arguments are valid UTF-8, so the joined path is too and converting it back
/// to text loses nothing.
#[verifier::external_body]
pub(crate) fn join(base: &str, part: &str) -> (path: String)
    ensures
        path@ == joined(base@, part@),
{
    std::path::Path::new(base).join(part).to_string_lossy().into_owned()
}

/// Formats `path` with the `Debug` implementation of `std::path::Path`.
///
/// Trusted: the result is taken to be a function of the text alone.
#[verifier::external_body]
pub(crate) fn quote(path: &str) -> (text: String)
    ensures
        text@ == quoted(path@),
{
    format!("{:?}", std::path::Path::new(path))
}

} // verus!
