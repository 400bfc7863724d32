use vstd::prelude::*;

verus! {

/// A per-entry failure recorded while scanning a tree.
///
/// Every failure is recovered locally and recorded; none aborts the walk.
/// The offending path is carried where it is known.
#[derive(Debug, PartialEq, Eq)]
pub enum DirsizeError {
    /// Access to a directory or file was refused.
    PermissionDenied(String),
    /// The entry could not be processed for some other path-qualified reason.
    Other(String),
    /// A metadata (stat) query failed after the entry was discovered.
    Metadata(String),
    /// A traversal-layer failure that could not be classified; recorded so
    /// that no failure is ever silently dropped.
    UnknownError,
}

/// The record produced for a traversal-layer failure: a permission failure
/// with a known path becomes `PermissionDenied` on that path, and every other
/// failure becomes `UnknownError`.
pub open spec fn walk_failure_record(path: Option<String>, permission_denied: bool) -> DirsizeError {
    match path {
        Option::Some(p) => if permission_denied {
            DirsizeError::PermissionDenied(p)
        } else {
            DirsizeError::UnknownError
        },
        Option::None => DirsizeError::UnknownError,
    }
}

/// Classify a traversal-layer failure (one that arises while walking the
/// tree, as opposed to a failed metadata query on a discovered entry) into
/// the record to collect. The walk layer reports whether the underlying
/// operating-system error was a refusal of access and, where known, the
/// offending path; only a path-qualified permission failure yields a
/// `PermissionDenied` record.
pub fn classify_walk_failure(path: Option<String>, permission_denied: bool) -> (r: DirsizeError)
    ensures
        r == walk_failure_record(path, permission_denied),
{
    if permission_denied {
        match path {
            Option::Some(p) => DirsizeError::PermissionDenied(p),
            Option::None => DirsizeError::UnknownError,
        }
    } else {
        DirsizeError::UnknownError
    }
}

} // verus!
