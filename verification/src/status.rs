//! Path classification: whether a path names a directory, and whether it
//! exists at all. The shell stats the path and reports what it found as a
//! plain value; classification itself never fails.

use vstd::prelude::*;

verus! {

/// What the filesystem says about a path. A path that cannot be examined at
/// all (missing, or the caller lacks permission to stat it) is `Absent`:
/// the queries below classify it, they never signal failure.
#[derive(Clone, Copy, PartialEq, Eq, Structural, Debug)]
pub enum PathStatus {
    /// The path exists and resolves to a directory.
    Directory,
    /// The path exists but is not a directory.
    NotDirectory,
    /// The path does not exist, or cannot be examined.
    Absent,
}

/// True exactly when the path exists and resolves to a directory.
pub fn is_directory(status: PathStatus) -> (r: bool)
    ensures
        r == (status is Directory),
{
    match status {
        PathStatus::Directory => true,
        PathStatus::NotDirectory => false,
        PathStatus::Absent => false,
    }
}

/// True exactly when the path exists, whatever kind of entry it is.
pub fn path_exists(status: PathStatus) -> (r: bool)
    ensures
        r == !(status is Absent),
{
    match status {
        PathStatus::Directory => true,
        PathStatus::NotDirectory => true,
        PathStatus::Absent => false,
    }
}

} // verus!
