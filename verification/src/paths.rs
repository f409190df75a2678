//! Filesystem paths, which the library carries and joins but never inspects.

use std::path::{Path, PathBuf};
use vstd::prelude::*;

verus! {

#[verifier::external_type_specification]
#[verifier::external_body]
pub struct ExPathBuf(PathBuf);

/// `PathBuf::clone` copies the path it is given.
pub assume_specification[ <PathBuf as Clone>::clone ](path: &PathBuf) -> (r: PathBuf)
    ensures
        r == *path,
;

/// The path that `PathBuf::from` builds from a string.
pub uninterp spec fn path_from_text(text: Seq<char>) -> PathBuf;

/// The path that `Path::join` builds from a base path and one more component.
pub uninterp spec fn path_joined(base: PathBuf, child: Seq<char>) -> PathBuf;

/// The last component of a path, as `Path::file_name` gives it, taken as text.
pub uninterp spec fn path_file_name(path: PathBuf) -> Option<Seq<char>>;

/// Whether `Path::starts_with` finds all of `base`'s components at the start of `path`.
pub uninterp spec fn path_starts_with(path: PathBuf, base: PathBuf) -> bool;

/// A single relative path component: not empty, and without separators,
/// drive colons or dots, so that it can be neither `.`, `..`, absolute nor
/// a prefix.
pub open spec fn is_plain_component(text: Seq<char>) -> bool {
    &&& text.len() > 0
    &&& forall|i: int|
        0 <= i < text.len() ==> #[trigger] text[i] != '/' && text[i] != '\\' && text[i] != ':'
            && text[i] != '.'
}

/// Calls `PathBuf::from` on a string; the result is named by `path_from_text`.
#[verifier::external_body]
pub(crate) fn path_from(text: &str) -> (r: PathBuf)
    ensures
        r == path_from_text(text@),
{
    PathBuf::from(text)
}

/// Calls `Path::join` with one more component; the result is named by
/// `path_joined`. Joining a plain relative component adjoins it to the base
/// path: the result's file name is that component, and the result starts
/// with the base path.
#[verifier::external_body]
pub(crate) fn join(base: &PathBuf, child: &str) -> (r: PathBuf)
    ensures
        r == path_joined(*base, child@),
        is_plain_component(child@) ==> path_file_name(r) == Some(child@) && path_starts_with(
            r,
            *base,
        ),
{
    Path::join(base, child)
}

} // verus!
