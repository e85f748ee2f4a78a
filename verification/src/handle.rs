//! The handle on a buffer, and the ways a mapping borrows it.

use crate::request::AccessMode;
use crate::sync::Direction;
use core::marker::PhantomData;
use vstd::prelude::*;

verus! {

/// A DMA-Buf buffer: the handle on the descriptor that the kernel gave out
/// for it. The descriptor must be open and belong to nobody else.
///
/// A mapping borrows the handle for as long as it lives: shared where it
/// only reads, so that other readers may map the buffer as well, and for
/// itself where it writes, so that nothing else can map the buffer
/// meanwhile.
#[derive(Debug)]
pub struct DmaBuf {
    fd: i32,
}

impl DmaBuf {
    /// The descriptor behind the handle.
    pub closed spec fn fd(&self) -> i32 {
        self.fd
    }

    /// The handle on the descriptor `fd`.
    pub fn new(fd: i32) -> (buf: Self)
        ensures
            buf.fd() == fd,
    {
        DmaBuf { fd }
    }

    /// The descriptor behind the handle.
    pub fn as_raw_fd(&self) -> (fd: i32)
        ensures
            fd == self.fd(),
    {
        self.fd
    }
}

/// How a mapping holds the handle: shared while it only reads, for itself
/// while it writes. The borrow is held in the type alone; what a mapping
/// needs of the handle, its descriptor, it keeps by value, so that the handle
/// comes back from every mapping as it went in.
#[derive(Debug)]
pub(crate) enum Access<'a> {
    ReadOnly(i32, PhantomData<&'a DmaBuf>),
    WriteOnly(i32, PhantomData<&'a mut DmaBuf>),
    ReadWrite(i32, PhantomData<&'a mut DmaBuf>),
}

impl<'a> Access<'a> {
    pub(crate) open spec fn mode(self) -> AccessMode {
        match self {
            Access::ReadOnly(_, _) => AccessMode::ReadOnly,
            Access::WriteOnly(_, _) => AccessMode::WriteOnly,
            Access::ReadWrite(_, _) => AccessMode::ReadWrite,
        }
    }

    pub(crate) open spec fn fd(self) -> i32 {
        match self {
            Access::ReadOnly(fd, _) => fd,
            Access::WriteOnly(fd, _) => fd,
            Access::ReadWrite(fd, _) => fd,
        }
    }

    /// Borrows `buf` shared, for a mapping that only reads.
    pub(crate) fn shared(buf: &'a DmaBuf) -> (access: Self)
        ensures
            access.mode() == AccessMode::ReadOnly,
            access.fd() == buf.fd(),
    {
        Access::ReadOnly(buf.as_raw_fd(), PhantomData)
    }

    /// Borrows `buf` for a mapping that writes, and that also reads where
    /// `read` says so. The handle is left as it is.
    pub(crate) fn exclusive(buf: &'a mut DmaBuf, read: bool) -> (access: Self)
        ensures
            access.mode() == (if read {
                AccessMode::ReadWrite
            } else {
                AccessMode::WriteOnly
            }),
            access.fd() == old(buf).fd(),
            *final(buf) == *old(buf),
    {
        let fd = buf.as_raw_fd();
        if read {
            Access::ReadWrite(fd, PhantomData)
        } else {
            Access::WriteOnly(fd, PhantomData)
        }
    }

    pub(crate) fn direction(&self) -> (direction: Direction)
        ensures
            direction == self.mode().direction_of(),
    {
        match self {
            Access::ReadOnly(_, _) => Direction::Read,
            Access::WriteOnly(_, _) => Direction::Write,
            Access::ReadWrite(_, _) => Direction::ReadWrite,
        }
    }

    pub(crate) fn access_mode(&self) -> (mode: AccessMode)
        ensures
            mode == self.mode(),
    {
        match self {
            Access::ReadOnly(_, _) => AccessMode::ReadOnly,
            Access::WriteOnly(_, _) => AccessMode::WriteOnly,
            Access::ReadWrite(_, _) => AccessMode::ReadWrite,
        }
    }

    pub(crate) fn raw_fd(&self) -> (fd: i32)
        ensures
            fd == self.fd(),
    {
        match self {
            Access::ReadOnly(fd, _) => *fd,
            Access::WriteOnly(fd, _) => *fd,
            Access::ReadWrite(fd, _) => *fd,
        }
    }
}

} // verus!
