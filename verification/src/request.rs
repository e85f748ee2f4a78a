//! What a mapping asks of the kernel: the modes of access, the requests, and
//! the order in which a life of a mapping puts them.

use crate::sync::{flags_of, Direction, Phase};
use vstd::prelude::*;

verus! {

/// What a mapping lets the CPU do with the bytes.
#[derive(Debug, Clone, Copy, PartialEq, Eq, Structural)]
pub enum AccessMode {
    /// Read them. Any number of such mappings of one handle may be alive.
    ReadOnly,
    /// Write them. No other mapping of the handle may be alive.
    WriteOnly,
    /// Read and write them. No other mapping of the handle may be alive.
    ReadWrite,
}

impl AccessMode {
    /// The direction that the notifications of such a mapping announce.
    pub open spec fn direction_of(self) -> Direction {
        match self {
            AccessMode::ReadOnly => Direction::Read,
            AccessMode::WriteOnly => Direction::Write,
            AccessMode::ReadWrite => Direction::ReadWrite,
        }
    }

    /// The direction that the notifications of such a mapping announce.
    pub fn direction(self) -> (direction: Direction)
        ensures
            direction == self.direction_of(),
    {
        match self {
            AccessMode::ReadOnly => Direction::Read,
            AccessMode::WriteOnly => Direction::Write,
            AccessMode::ReadWrite => Direction::ReadWrite,
        }
    }
}

/// One request to the kernel, on the descriptor of the buffer.
#[derive(Debug, Clone, Copy, PartialEq, Eq, Structural)]
pub enum Request {
    /// Report the size of the buffer in bytes.
    QuerySize,
    /// Map `len` bytes of the buffer from its offset 0, readable and
    /// writable, shared with the kernel, at an address of the kernel's
    /// choice.
    MapRegion {
        /// The length of the region, a whole number of pages.
        len: usize,
    },
    /// Take a cache-sync notification with this flags word.
    Sync {
        /// The flags word.
        flags: u64,
    },
    /// Unmap the region of `len` bytes at `addr`.
    Unmap {
        /// Where the region starts.
        addr: usize,
        /// The length of the region.
        len: usize,
    },
}

/// The notification that opens CPU access for a mapping of this mode.
pub open spec fn opening(mode: AccessMode) -> Request {
    Request::Sync { flags: flags_of(mode.direction_of(), Phase::Begin) }
}

/// The notification that closes CPU access for a mapping of this mode.
pub open spec fn closing(mode: AccessMode) -> Request {
    Request::Sync { flags: flags_of(mode.direction_of(), Phase::End) }
}

/// The requests that were answered when the size is known.
pub open spec fn asked_for_size() -> Seq<Request> {
    seq![Request::QuerySize]
}

/// The requests that were answered when the region is mapped.
pub open spec fn asked_for_region(len: usize) -> Seq<Request> {
    asked_for_size().push(Request::MapRegion { len })
}

/// The requests that were answered when CPU access is open.
pub open spec fn asked_for_access(mode: AccessMode, len: usize) -> Seq<Request> {
    asked_for_region(len).push(opening(mode))
}

/// The requests that were answered when CPU access is closed again.
pub open spec fn asked_for_close(mode: AccessMode, len: usize) -> Seq<Request> {
    asked_for_access(mode, len).push(closing(mode))
}

/// The requests of a whole life, from the size query to the unmapping.
pub open spec fn asked_for_release(mode: AccessMode, addr: usize, len: usize) -> Seq<Request> {
    asked_for_close(mode, len).push(Request::Unmap { addr, len })
}

} // verus!
