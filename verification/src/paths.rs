//! Path components of file paths given as strings, through `std::path::Path`.

use vstd::prelude::*;
use crate::text::last_index_of;

verus! {

/// The last component of a path, as `Path::file_name` gives it (`None` for a
/// path that ends in `..` or has no components), when it is valid UTF-8. The
/// separators are those of the platform the crate is built for (`/`, and on
/// Windows the backslash as well).
pub uninterp spec fn path_file_name(p: Seq<char>) -> Option<Seq<char>>;

/// Where a file name splits into stem and extension, as `Path` splits it:
/// at its last `.`, unless that dot starts the name or the name is `..`.
pub open spec fn extension_dot(n: Seq<char>) -> Option<int> {
    if n == seq!['.', '.'] {
        None
    } else {
        match last_index_of(n, '.') {
            Some(i) => if i > 0 {
                Some(i)
            } else {
                None
            },
            None => None,
        }
    }
}

/// The extension of a path, as `Path::extension` gives it: what follows the
/// splitting dot of the file name, `None` without one.
pub open spec fn path_extension(p: Seq<char>) -> Option<Seq<char>> {
    match path_file_name(p) {
        Some(n) => match extension_dot(n) {
            Some(i) => Some(n.skip(i + 1)),
            None => None,
        },
        None => None,
    }
}

/// The file name without its extension, as `Path::file_stem` gives it: what
/// precedes the splitting dot, or the whole name without one.
pub open spec fn path_file_stem(p: Seq<char>) -> Option<Seq<char>> {
    match path_file_name(p) {
        Some(n) => match extension_dot(n) {
            Some(i) => Some(n.take(i)),
            None => Some(n),
        },
        None => None,
    }
}

/// `Path::file_name` followed by `OsStr::to_str`. Trusted: the result is
/// `path_file_name(p)`; it depends on the path text alone.
#[verifier::external_body]
pub(crate) fn file_name(p: &str) -> (r: Option<String>)
    ensures
        r matches Some(s) ==> path_file_name(p@) == Some(s@),
        r is None ==> path_file_name(p@) is None,
{
    std::path::Path::new(p).file_name().and_then(|f| f.to_str()).map(|f| f.to_string())
}

/// `Path::extension` followed by `OsStr::to_str`. Trusted: the result is
/// `path_extension(p)`, the file name split as the standard library's source
/// splits it.
#[verifier::external_body]
pub(crate) fn extension(p: &str) -> (r: Option<String>)
    ensures
        r matches Some(s) ==> path_extension(p@) == Some(s@),
        r is None ==> path_extension(p@) is None,
{
    std::path::Path::new(p).extension().and_then(|f| f.to_str()).map(|f| f.to_string())
}

/// `Path::file_stem` followed by `OsStr::to_str`. Trusted: the result is
/// `path_file_stem(p)`, the file name split as the standard library's source
/// splits it.
#[verifier::external_body]
pub(crate) fn file_stem(p: &str) -> (r: Option<String>)
    ensures
        r matches Some(s) ==> path_file_stem(p@) == Some(s@),
        r is None ==> path_file_stem(p@) is None,
{
    std::path::Path::new(p).file_stem().and_then(|f| f.to_str()).map(|f| f.to_string())
}

} // verus!
