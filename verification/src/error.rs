//! The failures that mapping a buffer and reaching its bytes can end in.

use rustix::io::Errno;
use vstd::prelude::*;

verus! {

/// The kernel's error code, as rustix hands it out. Nothing here looks inside
/// one: it is carried from the failed call into the error that reports it.
#[verifier::external_type_specification]
#[verifier::external_body]
pub struct ExErrno(rustix::io::Errno);

/// Calls the `Display` impl of `rustix::io::Errno` through `to_string`. The
/// text is the host's description of the code, so nothing is claimed of it.
#[verifier::external_body]
pub(crate) fn errno_reason(code: Errno) -> (reason: String) {
    code.to_string()
}

/// The kernel rejected a cache-sync notification.
#[derive(Debug, PartialEq, Eq)]
pub struct NotifyError {
    /// What the host says of the error code.
    pub reason: String,
    /// The error code that the kernel gave.
    pub source: Errno,
}

impl NotifyError {
    /// The error that reports `source`.
    pub fn new(source: Errno) -> (err: Self)
        ensures
            err.source == source,
    {
        NotifyError { reason: errno_reason(source), source }
    }
}

/// Why a buffer could not be mapped.
#[non_exhaustive]
#[derive(Debug, PartialEq, Eq)]
pub enum MapError {
    /// The kernel could not tell the size of the buffer.
    SizeQueryFailed {
        /// What the host says of the error code.
        reason: String,
        /// The error code that the kernel gave.
        source: Errno,
    },
    /// The kernel refused to map the buffer.
    MappingFailed {
        /// What the host says of the error code.
        reason: String,
        /// The error code that the kernel gave.
        source: Errno,
    },
    /// The kernel rejected the notification that opens CPU access.
    FdAccess {
        /// What the host says of the error code.
        reason: String,
        /// The error code that the kernel gave.
        source: Errno,
    },
}

impl MapError {
    /// The error code behind the failure, whichever step failed.
    pub open spec fn code(self) -> Errno {
        match self {
            MapError::SizeQueryFailed { source, .. } => source,
            MapError::MappingFailed { source, .. } => source,
            MapError::FdAccess { source, .. } => source,
        }
    }

    /// The size query failed with `source`.
    pub fn size_query_failed(source: Errno) -> (err: Self)
        ensures
            err is SizeQueryFailed,
            err.code() == source,
    {
        MapError::SizeQueryFailed { reason: errno_reason(source), source }
    }

    /// The mapping request failed with `source`.
    pub fn mapping_failed(source: Errno) -> (err: Self)
        ensures
            err is MappingFailed,
            err.code() == source,
    {
        MapError::MappingFailed { reason: errno_reason(source), source }
    }

    /// A rejected notification, as a failure to map: reason and error code
    /// are those of `err`.
    pub fn fd_access(err: NotifyError) -> (out: Self)
        ensures
            out == (MapError::FdAccess { reason: err.reason, source: err.source }),
    {
        MapError::FdAccess { reason: err.reason, source: err.source }
    }

    /// The error code behind the failure.
    pub fn source(&self) -> (code: Errno)
        ensures
            code == self.code(),
    {
        match self {
            MapError::SizeQueryFailed { source, .. } => *source,
            MapError::MappingFailed { source, .. } => *source,
            MapError::FdAccess { source, .. } => *source,
        }
    }
}

/// Why a scoped access gave no result: the caller's own logic failed, or the
/// platform did. The two are never mixed up.
#[derive(Debug, PartialEq, Eq)]
pub enum AccessError<E> {
    /// The caller's logic failed with this error.
    ClosureError(E),
    /// A cache-sync notification was rejected.
    FdAccessError(NotifyError),
}

} // verus!
