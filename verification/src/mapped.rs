//! A buffer mapped in memory, in its three forms.
//!
//! A mapping exists from the moment the kernel has accepted the notification
//! that opens CPU access until its release begins. All that time its region
//! stays where it is and as long as it is, and the kernel knows of the
//! access.

use crate::handle::{Access, DmaBuf};
use crate::release::EndSync;
use crate::request::{asked_for_access, AccessMode, Request};
use core::marker::PhantomData;
use vstd::prelude::*;

verus! {

/// A `DmaBuf` mapped in memory, whatever way it borrows the handle.
#[derive(Debug)]
struct MappedDmaBuf<T> {
    buf: PhantomData<T>,
    fd: i32,
    size: usize,
    len: usize,
    addr: usize,
}

impl<T> MappedDmaBuf<T> {
    /// The region holds the whole buffer, and does not start at address
    /// zero.
    #[verifier::type_invariant]
    spec fn holds_the_buffer(self) -> bool {
        self.size <= self.len && self.addr != 0
    }
}

/// A read-only mapping of a buffer. The kernel knows of the access from the
/// moment the mapping exists until it is released.
#[derive(Debug)]
pub struct MappedDmaBufRo<'a>(MappedDmaBuf<&'a DmaBuf>);

/// A read-write mapping of a buffer. The kernel knows of the access from the
/// moment the mapping exists until it is released.
#[derive(Debug)]
pub struct MappedDmaBufRw<'a>(MappedDmaBuf<&'a mut DmaBuf>);

/// A write-only mapping of a buffer. The kernel knows of the access from the
/// moment the mapping exists until it is released. The caches are kept in
/// step for writing only: bytes read through it may be stale.
#[derive(Debug)]
pub struct MappedDmaBufWo<'a>(MappedDmaBuf<&'a mut DmaBuf>);

/// A mapping, in the one of its three forms that it was asked for.
#[derive(Debug)]
pub enum Mapping<'a> {
    /// The mapping lets the CPU read.
    ReadOnly(MappedDmaBufRo<'a>),
    /// The mapping lets the CPU write.
    WriteOnly(MappedDmaBufWo<'a>),
    /// The mapping lets the CPU read and write.
    ReadWrite(MappedDmaBufRw<'a>),
}

impl<'a> MappedDmaBufRo<'a> {
    /// The descriptor of the buffer.
    pub closed spec fn fd(self) -> i32 {
        self.0.fd
    }

    /// The size of the buffer, as the kernel reported it.
    pub closed spec fn size(self) -> usize {
        self.0.size
    }

    /// The length of the mapped region.
    pub closed spec fn len(self) -> usize {
        self.0.len
    }

    /// Where the mapped region starts.
    pub closed spec fn addr(self) -> usize {
        self.0.addr
    }

    /// The requests answered so far.
    pub open spec fn history(self) -> Seq<Request> {
        asked_for_access(AccessMode::ReadOnly, self.len())
    }

    /// The size of the buffer in bytes, as the kernel reported it.
    pub fn buffer_size(&self) -> (size: usize)
        ensures
            size == self.size(),
            size <= self.len(),
    {
        proof {
            use_type_invariant(&self.0);
        }
        self.0.size
    }

    /// The number of bytes in the mapping: no fewer than the buffer has.
    pub fn length(&self) -> (len: usize)
        ensures
            len == self.len(),
            len >= self.size(),
    {
        proof {
            use_type_invariant(&self.0);
        }
        self.0.len
    }

    /// The address at which the bytes of the mapping start: never zero.
    pub fn address(&self) -> (addr: usize)
        ensures
            addr == self.addr(),
            addr != 0,
    {
        proof {
            use_type_invariant(&self.0);
        }
        self.0.addr
    }

    /// Gives the mapping up: starts its release.
    pub fn release(self) -> (sync: EndSync<'a>)
        ensures
            sync.mode() == AccessMode::ReadOnly,
            sync.fd() == self.fd(),
            sync.len() == self.len(),
            sync.addr() == self.addr(),
            sync.history() == self.history(),
    {
        let MappedDmaBufRo(MappedDmaBuf { buf, fd, len, addr, .. }) = self;
        EndSync::begin(Access::ReadOnly(fd, buf), len, addr)
    }
}

impl<'a> MappedDmaBufRw<'a> {
    /// The descriptor of the buffer.
    pub closed spec fn fd(self) -> i32 {
        self.0.fd
    }

    /// The size of the buffer, as the kernel reported it.
    pub closed spec fn size(self) -> usize {
        self.0.size
    }

    /// The length of the mapped region.
    pub closed spec fn len(self) -> usize {
        self.0.len
    }

    /// Where the mapped region starts.
    pub closed spec fn addr(self) -> usize {
        self.0.addr
    }

    /// The requests answered so far.
    pub open spec fn history(self) -> Seq<Request> {
        asked_for_access(AccessMode::ReadWrite, self.len())
    }

    /// The size of the buffer in bytes, as the kernel reported it.
    pub fn buffer_size(&self) -> (size: usize)
        ensures
            size == self.size(),
            size <= self.len(),
    {
        proof {
            use_type_invariant(&self.0);
        }
        self.0.size
    }

    /// The number of bytes in the mapping: no fewer than the buffer has.
    pub fn length(&self) -> (len: usize)
        ensures
            len == self.len(),
            len >= self.size(),
    {
        proof {
            use_type_invariant(&self.0);
        }
        self.0.len
    }

    /// The address at which the bytes of the mapping start: never zero.
    pub fn address(&self) -> (addr: usize)
        ensures
            addr == self.addr(),
            addr != 0,
    {
        proof {
            use_type_invariant(&self.0);
        }
        self.0.addr
    }

    /// Gives the mapping up: starts its release.
    pub fn release(self) -> (sync: EndSync<'a>)
        ensures
            sync.mode() == AccessMode::ReadWrite,
            sync.fd() == self.fd(),
            sync.len() == self.len(),
            sync.addr() == self.addr(),
            sync.history() == self.history(),
    {
        let MappedDmaBufRw(MappedDmaBuf { buf, fd, len, addr, .. }) = self;
        EndSync::begin(Access::ReadWrite(fd, buf), len, addr)
    }
}

impl<'a> MappedDmaBufWo<'a> {
    /// The descriptor of the buffer.
    pub closed spec fn fd(self) -> i32 {
        self.0.fd
    }

    /// The size of the buffer, as the kernel reported it.
    pub closed spec fn size(self) -> usize {
        self.0.size
    }

    /// The length of the mapped region.
    pub closed spec fn len(self) -> usize {
        self.0.len
    }

    /// Where the mapped region starts.
    pub closed spec fn addr(self) -> usize {
        self.0.addr
    }

    /// The requests answered so far.
    pub open spec fn history(self) -> Seq<Request> {
        asked_for_access(AccessMode::WriteOnly, self.len())
    }

    /// The size of the buffer in bytes, as the kernel reported it.
    pub fn buffer_size(&self) -> (size: usize)
        ensures
            size == self.size(),
            size <= self.len(),
    {
        proof {
            use_type_invariant(&self.0);
        }
        self.0.size
    }

    /// The number of bytes in the mapping: no fewer than the buffer has.
    pub fn length(&self) -> (len: usize)
        ensures
            len == self.len(),
            len >= self.size(),
    {
        proof {
            use_type_invariant(&self.0);
        }
        self.0.len
    }

    /// The address at which the bytes of the mapping start: never zero.
    pub fn address(&self) -> (addr: usize)
        ensures
            addr == self.addr(),
            addr != 0,
    {
        proof {
            use_type_invariant(&self.0);
        }
        self.0.addr
    }

    /// Gives the mapping up: starts its release.
    pub fn release(self) -> (sync: EndSync<'a>)
        ensures
            sync.mode() == AccessMode::WriteOnly,
            sync.fd() == self.fd(),
            sync.len() == self.len(),
            sync.addr() == self.addr(),
            sync.history() == self.history(),
    {
        let MappedDmaBufWo(MappedDmaBuf { buf, fd, len, addr, .. }) = self;
        EndSync::begin(Access::WriteOnly(fd, buf), len, addr)
    }
}

impl<'a> Mapping<'a> {
    /// What the mapping lets the CPU do.
    pub open spec fn mode(self) -> AccessMode {
        match self {
            Mapping::ReadOnly(_) => AccessMode::ReadOnly,
            Mapping::WriteOnly(_) => AccessMode::WriteOnly,
            Mapping::ReadWrite(_) => AccessMode::ReadWrite,
        }
    }

    /// The descriptor of the buffer.
    pub open spec fn fd(self) -> i32 {
        match self {
            Mapping::ReadOnly(mapped) => mapped.fd(),
            Mapping::WriteOnly(mapped) => mapped.fd(),
            Mapping::ReadWrite(mapped) => mapped.fd(),
        }
    }

    /// The size of the buffer, as the kernel reported it.
    pub open spec fn size(self) -> usize {
        match self {
            Mapping::ReadOnly(mapped) => mapped.size(),
            Mapping::WriteOnly(mapped) => mapped.size(),
            Mapping::ReadWrite(mapped) => mapped.size(),
        }
    }

    /// The length of the mapped region.
    pub open spec fn len(self) -> usize {
        match self {
            Mapping::ReadOnly(mapped) => mapped.len(),
            Mapping::WriteOnly(mapped) => mapped.len(),
            Mapping::ReadWrite(mapped) => mapped.len(),
        }
    }

    /// Where the mapped region starts.
    pub open spec fn addr(self) -> usize {
        match self {
            Mapping::ReadOnly(mapped) => mapped.addr(),
            Mapping::WriteOnly(mapped) => mapped.addr(),
            Mapping::ReadWrite(mapped) => mapped.addr(),
        }
    }

    /// The requests answered so far.
    pub open spec fn history(self) -> Seq<Request> {
        asked_for_access(self.mode(), self.len())
    }

    /// The mapping that a handle borrowed as `access` has once the kernel
    /// has mapped `len` bytes at `addr` for a buffer of `size` bytes and
    /// knows of the access.
    pub(crate) fn open(access: Access<'a>, size: usize, len: usize, addr: usize) -> (mapping:
        Self)
        requires
            size <= len,
            addr != 0,
        ensures
            mapping.mode() == access.mode(),
            mapping.fd() == access.fd(),
            mapping.size() == size,
            mapping.len() == len,
            mapping.addr() == addr,
    {
        match access {
            Access::ReadOnly(fd, buf) => Mapping::ReadOnly(
                MappedDmaBufRo(MappedDmaBuf { buf, fd, size, len, addr }),
            ),
            Access::WriteOnly(fd, buf) => Mapping::WriteOnly(
                MappedDmaBufWo(MappedDmaBuf { buf, fd, size, len, addr }),
            ),
            Access::ReadWrite(fd, buf) => Mapping::ReadWrite(
                MappedDmaBufRw(MappedDmaBuf { buf, fd, size, len, addr }),
            ),
        }
    }

    /// What the mapping lets the CPU do.
    pub fn access_mode(&self) -> (mode: AccessMode)
        ensures
            mode == self.mode(),
    {
        match self {
            Mapping::ReadOnly(_) => AccessMode::ReadOnly,
            Mapping::WriteOnly(_) => AccessMode::WriteOnly,
            Mapping::ReadWrite(_) => AccessMode::ReadWrite,
        }
    }

    /// Gives the mapping up: starts its release.
    pub fn release(self) -> (sync: EndSync<'a>)
        ensures
            sync.mode() == self.mode(),
            sync.fd() == self.fd(),
            sync.len() == self.len(),
            sync.addr() == self.addr(),
            sync.history() == self.history(),
    {
        match self {
            Mapping::ReadOnly(mapped) => mapped.release(),
            Mapping::WriteOnly(mapped) => mapped.release(),
            Mapping::ReadWrite(mapped) => mapped.release(),
        }
    }
}

} // verus!
