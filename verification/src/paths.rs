//! Filesystem path arithmetic (no filesystem access).

use vstd::prelude::*;

verus! {

/// The text of `Path::new(base).join(part)`.
pub uninterp spec fn path_join(base: Seq<char>, part: Seq<char>) -> Seq<char>;

/// The last component of a path as `Path::file_name` gives it, when it has one.
pub uninterp spec fn path_file_name(path: Seq<char>) -> Option<Seq<char>>;

/// Calls `std::path::Path::join` on `base` and `part` and returns the joined path as
/// text. The contract only names the result: it is a function of the two texts.
#[verifier::external_body]
pub fn join_path(base: &str, part: &str) -> (r: String)
    ensures
        r@ == path_join(base@, part@),
{
    std::path::Path::new(base).join(part).to_string_lossy().into_owned()
}

/// Calls `std::path::Path::file_name` on `path` and returns the component as text.
/// The contract only names the result: it is a function of the path's text.
#[verifier::external_body]
pub fn file_name(path: &str) -> (r: Option<String>)
    ensures
        match r {
            Some(n) => path_file_name(path@) == Some(n@),
            None => path_file_name(path@) is None,
        },
{
    match std::path::Path::new(path).file_name() {
        Some(n) => Some(n.to_string_lossy().into_owned()),
        None => None,
    }
}

} // verus!
