//! Filesystem paths, held as plain strings.
//!
//! Joining and splitting follow the platform's rules as implemented by
//! `std::path`; the results are named here so that contracts elsewhere can
//! say exactly which path a function produces.

use vstd::prelude::*;

verus! {

/// What `Path::join` gives for `base` extended by `part`.
pub uninterp spec fn path_join(base: Seq<char>, part: Seq<char>) -> Seq<char>;

/// What `Path::file_name` gives for `path`: its final component, if it has one.
pub uninterp spec fn path_file_name(path: Seq<char>) -> Option<Seq<char>>;

/// What `Path::parent` gives for `path`: the path without its final
/// component, if there is one.
pub uninterp spec fn path_parent(path: Seq<char>) -> Option<Seq<char>>;

/// Calls `Path::join`; the result is named by [`path_join`].
#[verifier::external_body]
pub(crate) fn join_path(base: &str, part: &str) -> (joined: String)
    ensures
        joined@ == path_join(base@, part@),
{
    std::path::Path::new(base).join(part).to_string_lossy().into_owned()
}

/// Calls `Path::file_name`; the result is named by [`path_file_name`].
#[verifier::external_body]
pub(crate) fn file_name_of(path: &str) -> (name: Option<String>)
    ensures
        crate::text::opt_view(name) == path_file_name(path@),
{
    match std::path::Path::new(path).file_name() {
        Some(n) => Some(n.to_string_lossy().into_owned()),
        None => None,
    }
}

/// Calls `Path::parent`; the result is named by [`path_parent`].
#[verifier::external_body]
pub(crate) fn parent_of(path: &str) -> (dir: Option<String>)
    ensures
        crate::text::opt_view(dir) == path_parent(path@),
{
    match std::path::Path::new(path).parent() {
        Some(p) => Some(p.to_string_lossy().into_owned()),
        None => None,
    }
}

} // verus!
