use vstd::prelude::*;

use crate::errors::StoreError;
use crate::text::str_eq;

verus! {

/// The outcome of the host's canonicalization of a candidate path, handed to
/// the confinement check as plain values.
pub enum PathResolution {
    /// The candidate path does not exist.
    Missing,
    /// The candidate exists but could not be canonicalized; the host supplies
    /// the failure detail.
    Unresolvable(String),
    /// The candidate's canonical form, symlinks resolved.
    Canonical(String),
}

/// Whether canonical path `path` lies at or under canonical directory `dir`:
/// it is the directory itself, or continues past it at a component boundary.
/// Both are canonical absolute paths without trailing separators, so `dir` is
/// never the filesystem root.
pub open spec fn confined_within(path: Seq<char>, dir: Seq<char>) -> bool {
    ||| path == dir
    ||| (path.len() > dir.len() && path.subrange(0, dir.len() as int) == dir && path[dir.len() as int]
        == '/')
}

/// Decides whether canonical `path` lies at or under canonical `dir`.
pub fn is_confined(path: &str, dir: &str) -> (r: bool)
    ensures
        r == confined_within(path@, dir@),
{
    let np = path.unicode_len();
    let nd = dir.unicode_len();
    if np == nd {
        return str_eq(path, dir);
    }
    if np < nd {
        return false;
    }
    let mut i: usize = 0;
    while i < nd
        invariant
            np == path@.len(),
            nd == dir@.len(),
            nd < np,
            i <= nd,
            forall|j: int| 0 <= j < i ==> path@[j] == dir@[j],
        decreases nd - i,
    {
        if path.get_char(i) != dir.get_char(i) {
            return false;
        }
        i += 1;
    }
    proof {
        assert(path@.subrange(0, nd as int) =~= dir@);
    }
    path.get_char(nd) == '/'
}

/// Admits a candidate path to a read or delete: the path must exist,
/// canonicalize, and lie inside the managed directory. On success the
/// canonical path comes back for the host to act on.
pub fn authorize_managed_path(resolution: PathResolution, canonical_dir: &str) -> (r: Result<
    String,
    StoreError,
>)
    ensures
        resolution is Missing ==> r == Err::<String, StoreError>(StoreError::SourceMissing),
        resolution matches PathResolution::Unresolvable(d) ==> (r matches Err(e) && e matches
            StoreError::Io(m) && m@ == d@),
        resolution matches PathResolution::Canonical(p) ==> ((confined_within(p@, canonical_dir@)
            ==> (r matches Ok(q) && q@ == p@)) && (!confined_within(p@, canonical_dir@) ==> r
            == Err::<String, StoreError>(StoreError::OutsideManagedDirectory))),
{
    match resolution {
        PathResolution::Missing => Err(StoreError::SourceMissing),
        PathResolution::Unresolvable(detail) => Err(StoreError::Io(detail)),
        PathResolution::Canonical(path) => {
            if is_confined(path.as_str(), canonical_dir) {
                Ok(path)
            } else {
                Err(StoreError::OutsideManagedDirectory)
            }
        },
    }
}

/// The deleter's soft-failure rule: a missing, unresolvable, or unconfined
/// target means "nothing to delete" (`None`); a confined, present target
/// yields the canonical path the host must remove.
pub fn delete_decision(resolution: PathResolution, canonical_dir: &str) -> (r: Option<String>)
    ensures
        resolution is Missing ==> r is None,
        resolution is Unresolvable ==> r is None,
        resolution matches PathResolution::Canonical(p) ==> ((confined_within(p@, canonical_dir@)
            ==> (r matches Some(q) && q@ == p@)) && (!confined_within(p@, canonical_dir@) ==> r
            is None)),
{
    match authorize_managed_path(resolution, canonical_dir) {
        Ok(path) => Some(path),
        Err(_) => None,
    }
}

} // verus!
