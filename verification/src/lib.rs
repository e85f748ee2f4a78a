//! CPU access to DMA-Buf buffers: the life of a mapping, from the size query
//! to the unmapping, and the cache-sync notifications that bracket it.
//!
//! The library decides and the caller acts. Every step of a mapping is a value
//! that names the one request to put to the kernel next; the caller performs
//! it and hands the kernel's answer back, which yields the next step.

pub mod access;
pub mod attempt;
pub mod error;
pub mod handle;
pub mod length;
pub mod lifecycle;
pub mod mapped;
pub mod release;
pub mod request;
pub mod sync;

pub use access::surface;
pub use attempt::{BeginSync, MapCall, SizeQuery, Unwind};
pub use error::{AccessError, MapError, NotifyError};
pub use handle::DmaBuf;
pub use length::{checked_mapping_length, mapping_length};
pub use mapped::{MappedDmaBufRo, MappedDmaBufRw, MappedDmaBufWo, Mapping};
pub use release::{EndSync, Released, UnmapCall};
pub use request::{AccessMode, Request};
pub use sync::{
    notify_outcome, sync_flags, Direction, Phase, DMA_BUF_BASE, DMA_BUF_IOCTL_SYNC,
    DMA_BUF_SYNC_END, DMA_BUF_SYNC_READ, DMA_BUF_SYNC_START, DMA_BUF_SYNC_WRITE,
};
