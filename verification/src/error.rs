//! Errors of the version cache.

use vstd::prelude::*;

verus! {

/// Why a file system operation failed, as far as the cache tells failures apart.
#[derive(Debug, Clone, Copy, PartialEq, Eq, Structural)]
pub enum IoKind {
    /// The file or directory does not exist.
    NotFound,
    /// The operating system refused access.
    PermissionDenied,
    /// Any other failure of the operation.
    Other,
}

/// What the cache reports to its caller. Nothing is retried or logged here.
#[derive(Debug, Clone, Copy, PartialEq, Eq, Structural)]
pub enum Error {
    /// The platform offers no cache directory, or it could not be created.
    CacheUnavailable,
    /// Reading, writing or deleting the cache file failed.
    Io(IoKind),
}

impl Error {
    /// Whether this is the failure of an operation on a file that is not there.
    pub fn is_not_found(&self) -> (r: bool)
        ensures
            r == (*self == Error::Io(IoKind::NotFound)),
    {
        match self {
            Error::Io(IoKind::NotFound) => true,
            _ => false,
        }
    }
}

} // verus!
