//! Paths on this node, which the library joins and carries along.

use std::path::PathBuf;
use vstd::prelude::*;

verus! {

/// A path on this node.
#[verifier::external_type_specification]
#[verifier::external_body]
pub struct ExPathBuf(PathBuf);

/// What the standard library makes of a path and a name under it.
pub uninterp spec fn joined(root: PathBuf, leaf: Seq<char>) -> PathBuf;

/// Joins a path and a name with the standard library's `Path::join`. The path
/// that comes of it, with the separator of the platform that it is a path of, is
/// a function of the two alone: the file system is not looked at. How the parts
/// are put together is not spelled out here.
#[verifier::external_body]
pub(crate) fn join_path(root: &PathBuf, leaf: &str) -> (path: PathBuf)
    ensures
        path == joined(*root, leaf@),
{
    root.join(leaf)
}

} // verus!
