//! Releasing a mapping: the notification that closes CPU access, then the
//! unmapping.
//!
//! A release cannot fail. The kernel may reject either request; the release
//! goes on all the same, and keeps what was rejected for whoever reports it.

use crate::error::NotifyError;
use crate::handle::Access;
use crate::request::{
    asked_for_access, asked_for_close, asked_for_release, closing, AccessMode, Request,
};
use crate::sync::{notify_outcome, sync_flags, Phase};
use rustix::io::Errno;
use vstd::prelude::*;

verus! {

/// First step of a release: the kernel is told that CPU access is over.
#[derive(Debug)]
pub struct EndSync<'a> {
    access: Access<'a>,
    len: usize,
    addr: usize,
}

/// Last step of a release: the kernel is asked to unmap the region.
#[derive(Debug)]
pub struct UnmapCall<'a> {
    access: Access<'a>,
    len: usize,
    addr: usize,
    sync_failure: Option<NotifyError>,
}

/// A mapping that is no more. What the kernel refused during the release is
/// kept here.
#[derive(Debug)]
pub struct Released {
    mode: AccessMode,
    fd: i32,
    len: usize,
    addr: usize,
    sync_failure: Option<NotifyError>,
    unmap_failure: Option<Errno>,
}

impl<'a> EndSync<'a> {
    /// What the mapping let the CPU do.
    pub closed spec fn mode(self) -> AccessMode {
        self.access.mode()
    }

    /// The descriptor of the buffer.
    pub closed spec fn fd(self) -> i32 {
        self.access.fd()
    }

    /// The length of the mapped region.
    pub closed spec fn len(self) -> usize {
        self.len
    }

    /// Where the mapped region starts.
    pub closed spec fn addr(self) -> usize {
        self.addr
    }

    /// The request that this step waits on.
    pub open spec fn pending(self) -> Request {
        closing(self.mode())
    }

    /// The requests answered so far.
    pub open spec fn history(self) -> Seq<Request> {
        asked_for_access(self.mode(), self.len())
    }

    /// The release of the region of `len` bytes at `addr`, mapped for a
    /// handle borrowed as `access`.
    pub(crate) fn begin(access: Access<'a>, len: usize, addr: usize) -> (sync: Self)
        ensures
            sync.mode() == access.mode(),
            sync.fd() == access.fd(),
            sync.len() == len,
            sync.addr() == addr,
    {
        EndSync { access, len, addr }
    }

    /// What the mapping let the CPU do.
    pub fn access_mode(&self) -> (mode: AccessMode)
        ensures
            mode == self.mode(),
    {
        self.access.access_mode()
    }

    /// The request to put to the kernel now.
    pub fn request(&self) -> (request: Request)
        ensures
            request == self.pending(),
    {
        Request::Sync { flags: sync_flags(self.access.direction(), Phase::End) }
    }

    /// Takes the kernel's answer to the closing notification. Whatever it is,
    /// the unmapping comes next: a rejection is only kept for the record.
    pub fn answered(self, reply: Result<(), Errno>) -> (unmap: UnmapCall<'a>)
        ensures
            unmap.mode() == self.mode(),
            unmap.fd() == self.fd(),
            unmap.len() == self.len(),
            unmap.addr() == self.addr(),
            unmap.history() == self.history().push(self.pending()),
            match reply {
                Ok(()) => unmap.sync_failure() is None,
                Err(code) => unmap.sync_failure() matches Some(err) && err.source == code,
            },
    {
        let sync_failure = match notify_outcome(reply) {
            Ok(()) => None,
            Err(err) => Some(err),
        };
        UnmapCall { access: self.access, len: self.len, addr: self.addr, sync_failure }
    }
}

impl<'a> UnmapCall<'a> {
    /// What the mapping let the CPU do.
    pub closed spec fn mode(self) -> AccessMode {
        self.access.mode()
    }

    /// The descriptor of the buffer.
    pub closed spec fn fd(self) -> i32 {
        self.access.fd()
    }

    /// The length of the mapped region.
    pub closed spec fn len(self) -> usize {
        self.len
    }

    /// Where the mapped region starts.
    pub closed spec fn addr(self) -> usize {
        self.addr
    }

    /// The rejection of the closing notification, if the kernel rejected it.
    pub closed spec fn sync_failure(self) -> Option<NotifyError> {
        self.sync_failure
    }

    /// The request that this step waits on.
    pub open spec fn pending(self) -> Request {
        Request::Unmap { addr: self.addr(), len: self.len() }
    }

    /// The requests answered so far.
    pub open spec fn history(self) -> Seq<Request> {
        asked_for_close(self.mode(), self.len())
    }

    /// What the mapping let the CPU do.
    pub fn access_mode(&self) -> (mode: AccessMode)
        ensures
            mode == self.mode(),
    {
        self.access.access_mode()
    }

    /// The request to put to the kernel now.
    pub fn request(&self) -> (request: Request)
        ensures
            request == self.pending(),
    {
        Request::Unmap { addr: self.addr, len: self.len }
    }

    /// Takes the kernel's answer to the unmapping. Whatever it is, the
    /// mapping is released and the handle free again: a failure is only kept
    /// for the record.
    pub fn answered(self, reply: Result<(), Errno>) -> (released: Released)
        ensures
            released.mode() == self.mode(),
            released.fd() == self.fd(),
            released.len() == self.len(),
            released.addr() == self.addr(),
            released.history() == self.history().push(self.pending()),
            released.sync_failure() == self.sync_failure(),
            released.unmap_failure() == match reply {
                Ok(()) => None::<Errno>,
                Err(code) => Some(code),
            },
    {
        let unmap_failure = match reply {
            Ok(()) => None,
            Err(code) => Some(code),
        };
        Released {
            mode: self.access.access_mode(),
            fd: self.access.raw_fd(),
            len: self.len,
            addr: self.addr,
            sync_failure: self.sync_failure,
            unmap_failure,
        }
    }
}

impl Released {
    /// What the mapping let the CPU do.
    pub closed spec fn mode(self) -> AccessMode {
        self.mode
    }

    /// The descriptor of the buffer.
    pub closed spec fn fd(self) -> i32 {
        self.fd
    }

    /// The length that the mapped region had.
    pub closed spec fn len(self) -> usize {
        self.len
    }

    /// Where the mapped region started.
    pub closed spec fn addr(self) -> usize {
        self.addr
    }

    /// The rejection of the closing notification, if the kernel rejected it.
    pub closed spec fn sync_failure(self) -> Option<NotifyError> {
        self.sync_failure
    }

    /// The error code of the unmapping, if it failed.
    pub closed spec fn unmap_failure(self) -> Option<Errno> {
        self.unmap_failure
    }

    /// All the requests of the mapping's life, in their order.
    pub open spec fn history(self) -> Seq<Request> {
        asked_for_release(self.mode(), self.addr(), self.len())
    }

    /// What the mapping let the CPU do.
    pub fn access_mode(&self) -> (mode: AccessMode)
        ensures
            mode == self.mode(),
    {
        self.mode
    }

    /// The rejection of the closing notification, if the kernel rejected it.
    pub fn end_sync_failure(&self) -> (failure: Option<&NotifyError>)
        ensures
            match failure {
                Some(err) => self.sync_failure() == Some(*err),
                None => self.sync_failure() is None,
            },
    {
        self.sync_failure.as_ref()
    }

    /// The error code of the unmapping, if it failed.
    pub fn unmapping_failure(&self) -> (failure: Option<Errno>)
        ensures
            failure == self.unmap_failure(),
    {
        self.unmap_failure
    }
}

} // verus!
