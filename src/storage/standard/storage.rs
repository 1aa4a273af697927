use super::super::generic::{IoError, OuterDirectoryError};
use vstd::prelude::*;

verus! {

/// Why the file backend could not be set up.
#[derive(Debug, PartialEq, Eq, Structural)]
pub enum StandardStorageAvailabilityError {
    UnknownHomeDirectory,
}

/// Marks a handle that can only read.
pub struct ReadOnly;

/// Marks a handle that can read and write.
pub struct ReadWrite;

/// One component of a file system path.
#[derive(Debug)]
pub enum PathPart {
    /// A platform prefix such as a drive letter.
    Prefix(String),
    /// The root of the file system.
    RootDir,
    /// `.`
    CurDir,
    /// `..`
    ParentDir,
    /// A plain name.
    Normal(String),
}

/// `parts` without the components that name the file system's root.
pub open spec fn without_root(parts: Seq<PathPart>) -> Seq<PathPart>
    decreases parts.len(),
{
    if parts.len() == 0 {
        Seq::empty()
    } else if parts.last() is RootDir {
        without_root(parts.drop_last())
    } else {
        without_root(parts.drop_last()).push(parts.last())
    }
}

/// The path `path` moved under `prefix`: the components of `prefix`, then those of `path`
/// but its root. An absolute path so lands inside `prefix`.
pub fn reroot(prefix: Vec<PathPart>, path: Vec<PathPart>) -> (r: Vec<PathPart>)
    ensures
        r@ == prefix@ + without_root(path@),
{
    let mut out = prefix;
    let mut rest = path;
    let ghost whole = path@;
    let ghost mut done: int = 0;
    while rest.len() > 0
        invariant
            0 <= done <= whole.len(),
            rest@ == whole.subrange(done, whole.len() as int),
            out@ == prefix@ + without_root(whole.subrange(0, done)),
        decreases rest.len(),
    {
        let part = rest.remove(0);
        proof {
            assert(part == whole[done]);
            let taken = whole.subrange(0, done + 1);
            assert(taken.drop_last() =~= whole.subrange(0, done));
            assert(taken.last() == whole[done]);
            done = done + 1;
        }
        match part {
            PathPart::RootDir => {},
            other => {
                out.push(other);
            },
        }
        assert(rest@ =~= whole.subrange(done, whole.len() as int));
        assert(out@ =~= prefix@ + without_root(whole.subrange(0, done)));
    }
    assert(whole.subrange(0, done) =~= whole);
    out
}

/// Whether a root directory is usable, from whether creating it (with its missing ancestors)
/// succeeded and whether the path is then a directory.
pub fn check_outer_dir(created: bool, is_dir: bool) -> (r: Result<(), OuterDirectoryError>)
    ensures
        r is Ok <==> created && is_dir,
        r is Err ==> r == Err::<(), _>(OuterDirectoryError::NotAvailable),
{
    if created && is_dir {
        Ok(())
    } else {
        Err(OuterDirectoryError::NotAvailable)
    }
}

/// The outcome of removing a file, from the outcome of deleting it: a file that is already gone
/// counts as removed, so removing twice succeeds twice.
pub fn removal_result(outcome: Result<(), IoError>) -> (r: Result<(), IoError>)
    ensures
        outcome is Ok ==> r is Ok,
        outcome matches Err(IoError::NotFound) ==> r is Ok,
        outcome matches Err(IoError::Other(_)) ==> r == outcome,
{
    match outcome {
        Ok(()) => Ok(()),
        Err(IoError::NotFound) => Ok(()),
        Err(e) => Err(e),
    }
}

} // verus!
