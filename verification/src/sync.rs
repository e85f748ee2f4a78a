//! The cache-sync notification that brackets CPU access to a buffer.
//!
//! The kernel takes one 64-bit word of flags. Bit 0 asks for read access,
//! bit 1 for write access, and bit 2 tells the end of an access from its
//! beginning.

use crate::error::NotifyError;
use rustix::io::Errno;
use vstd::prelude::*;

verus! {

/// The category under which the kernel routes DMA-Buf requests: `'b'`.
pub const DMA_BUF_BASE: u8 = 0x62;

/// The number of the sync request within its category.
pub const DMA_BUF_IOCTL_SYNC: u8 = 0;

/// The CPU is going to read, or has read.
pub const DMA_BUF_SYNC_READ: u64 = 1;

/// The CPU is going to write, or has written.
pub const DMA_BUF_SYNC_WRITE: u64 = 2;

/// The access begins.
pub const DMA_BUF_SYNC_START: u64 = 0;

/// The access ends.
pub const DMA_BUF_SYNC_END: u64 = 4;

/// What the CPU does with the bytes between two notifications.
#[derive(Debug, Clone, Copy, PartialEq, Eq, Structural)]
pub enum Direction {
    /// It reads them.
    Read,
    /// It writes them.
    Write,
    /// It does both.
    ReadWrite,
}

/// Which end of an access a notification marks.
#[derive(Debug, Clone, Copy, PartialEq, Eq, Structural)]
pub enum Phase {
    /// The access is about to start.
    Begin,
    /// The access is over.
    End,
}

impl Direction {
    /// Whether the CPU reads.
    pub open spec fn reads(self) -> bool {
        self != Direction::Write
    }

    /// Whether the CPU writes.
    pub open spec fn writes(self) -> bool {
        self != Direction::Read
    }
}

/// The flags word for a notification, as a sum: 1 for reading, 2 for writing,
/// 4 for the end of the access.
pub open spec fn flags_of(direction: Direction, phase: Phase) -> u64 {
    let read: u64 = if direction.reads() { 1 } else { 0 };
    let write: u64 = if direction.writes() { 2 } else { 0 };
    let end: u64 = if phase == Phase::End { 4 } else { 0 };
    (read + write + end) as u64
}

/// The flags word, bit by bit: bit 0 is set exactly for a direction that
/// reads, bit 1 exactly for one that writes, bit 2 exactly at the end of an
/// access, and no other bit is ever set. It is the word that the named
/// constants make when joined by `|`.
pub proof fn lemma_flags_bits(direction: Direction, phase: Phase)
    ensures
        (flags_of(direction, phase) & 1 == 1) <==> direction.reads(),
        (flags_of(direction, phase) & 2 == 2) <==> direction.writes(),
        (flags_of(direction, phase) & 4 == 4) <==> phase == Phase::End,
        flags_of(direction, phase) & !7u64 == 0,
        flags_of(direction, phase) == (if direction.reads() {
            DMA_BUF_SYNC_READ
        } else {
            0
        }) | (if direction.writes() {
            DMA_BUF_SYNC_WRITE
        } else {
            0
        }) | (if phase == Phase::End {
            DMA_BUF_SYNC_END
        } else {
            DMA_BUF_SYNC_START
        }),
{
    let flags = flags_of(direction, phase);
    assert(1 <= flags <= 7);
    assert(forall|w: u64|
        1 <= w <= 7 ==> (w & !7u64 == 0) && ((w & 1 == 1) <==> (w == 1 || w == 3 || w == 5 || w
            == 7)) && ((w & 2 == 2) <==> (w == 2 || w == 3 || w == 6 || w == 7)) && ((w & 4 == 4)
            <==> (w >= 4))) by (bit_vector);
    assert(1u64 | 0u64 | 0u64 == 1 && 0u64 | 2u64 | 0u64 == 2 && 1u64 | 2u64 | 0u64 == 3 && 1u64
        | 0u64 | 4u64 == 5 && 0u64 | 2u64 | 4u64 == 6 && 1u64 | 2u64 | 4u64 == 7) by (bit_vector);
}

/// Two notifications with the same flags word are the same notification.
pub proof fn lemma_flags_tell_apart(
    direction: Direction,
    phase: Phase,
    other_direction: Direction,
    other_phase: Phase,
)
    requires
        flags_of(direction, phase) == flags_of(other_direction, other_phase),
    ensures
        direction == other_direction,
        phase == other_phase,
{
}

/// The flags word that tells the kernel of `phase` of an access in
/// `direction`.
pub fn sync_flags(direction: Direction, phase: Phase) -> (flags: u64)
    ensures
        flags == flags_of(direction, phase),
{
    let access: u64 = match direction {
        Direction::Read => DMA_BUF_SYNC_READ,
        Direction::Write => DMA_BUF_SYNC_WRITE,
        Direction::ReadWrite => DMA_BUF_SYNC_WRITE | DMA_BUF_SYNC_READ,
    };
    let end: u64 = match phase {
        Phase::Begin => DMA_BUF_SYNC_START,
        Phase::End => DMA_BUF_SYNC_END,
    };
    assert(0u64 | 1u64 == 1 && 0u64 | 2u64 == 2 && 0u64 | (2u64 | 1u64) == 3 && 4u64 | 1u64 == 5
        && 4u64 | 2u64 == 6 && 4u64 | (2u64 | 1u64) == 7) by (bit_vector);
    end | access
}

/// What a notification came to, from the kernel's answer to it: success
/// stays success, and a rejection is reported with the kernel's error code.
pub fn notify_outcome(reply: Result<(), Errno>) -> (out: Result<(), NotifyError>)
    ensures
        match reply {
            Ok(()) => out is Ok,
            Err(code) => out matches Err(err) && err.source == code,
        },
{
    match reply {
        Ok(()) => Ok(()),
        Err(code) => Err(NotifyError::new(code)),
    }
}

} // verus!
