//! What holds of the life of every mapping, whatever the kernel answers.
//!
//! Each step records the requests that were answered before it, and every
//! answer that moves a step on adds the request it answered. So the record of
//! a step is all that was ever asked of the kernel for its mapping.

use crate::attempt::Unwind;
use crate::mapped::Mapping;
use crate::release::{EndSync, Released, UnmapCall};
use crate::request::{
    asked_for_access, asked_for_region, asked_for_size, closing, opening, AccessMode, Request,
};
use crate::sync::{flags_of, Phase, DMA_BUF_SYNC_END};
use vstd::prelude::*;

verus! {

/// Until the kernel has answered the opening notification nothing asks it to
/// unmap: the size query, the mapping request and the opening notification
/// are all that is asked, each once and in this order. An attempt that fails
/// before the region is mapped stops somewhere on the way, with nothing to
/// unmap.
pub proof fn lemma_attempt_asks_no_unmapping(mode: AccessMode, len: usize)
    ensures
        asked_for_access(mode, len).len() == 3,
        asked_for_access(mode, len)[0] == Request::QuerySize,
        asked_for_access(mode, len)[1] == (Request::MapRegion { len }),
        asked_for_access(mode, len)[2] == opening(mode),
        asked_for_region(len) == asked_for_access(mode, len).take(2),
        asked_for_size() == asked_for_access(mode, len).take(1),
        forall|i: int| 0 <= i < 3 ==> !(#[trigger] asked_for_access(mode, len)[i] is Unmap),
{
    assert(asked_for_access(mode, len).take(2) =~= asked_for_region(len));
    assert(asked_for_access(mode, len).take(1) =~= asked_for_size());
}

/// An attempt that the kernel stopped at the opening notification asks for
/// one thing more, the unmapping of the region that was mapped for it. So
/// over the whole of such an attempt the kernel was asked to unmap exactly
/// once: as the last request of all, and for the very region that the one
/// mapping request had made. The rejected notification was the only one: no
/// closing notification was asked for an access that never opened.
pub proof fn lemma_unwound_attempt_unmaps_once(unwind: Unwind)
    ensures
        unwind.history().push(unwind.pending()).len() == 4,
        forall|i: int|
            0 <= i < 4 ==> ((#[trigger] unwind.history().push(unwind.pending())[i] is Unmap) <==> i
                == 3),
        forall|i: int|
            0 <= i < 4 ==> ((#[trigger] unwind.history().push(unwind.pending())[i] is MapRegion)
                <==> i == 1),
        forall|i: int|
            0 <= i < 4 ==> ((#[trigger] unwind.history().push(unwind.pending())[i] is Sync) <==> i
                == 2),
        unwind.history()[1] == (Request::MapRegion { len: unwind.len() }),
        unwind.history()[2] == opening(unwind.mode()),
        unwind.pending() == (Request::Unmap { addr: unwind.addr(), len: unwind.len() }),
        opening(unwind.mode()) != closing(unwind.mode()),
{
}

/// A mapping that is alive has not been unmapped, and CPU access to it has
/// been opened and not closed: its release is still owed.
pub proof fn lemma_mapping_is_open(mapping: Mapping)
    ensures
        mapping.history().len() == 3,
        mapping.history()[1] == (Request::MapRegion { len: mapping.len() }),
        mapping.history()[2] == opening(mapping.mode()),
        forall|i: int| 0 <= i < 3 ==> !(#[trigger] mapping.history()[i] is Unmap),
        forall|i: int| 0 <= i < 3 ==> #[trigger] mapping.history()[i] != closing(mapping.mode()),
{
    lemma_attempt_asks_no_unmapping(mapping.mode(), mapping.len());
}

/// Over the whole life of a mapping that was released, the kernel was asked
/// to unmap exactly once: as the last request of all, and for the very
/// region that the one mapping request had made, at the address that the
/// kernel had answered.
pub proof fn lemma_released_unmapped_once(released: Released)
    ensures
        released.history().len() == 5,
        forall|i: int| 0 <= i < 5 ==> ((#[trigger] released.history()[i] is Unmap) <==> i == 4),
        forall|i: int|
            0 <= i < 5 ==> ((#[trigger] released.history()[i] is MapRegion) <==> i == 1),
        released.history()[1] == (Request::MapRegion { len: released.len() }),
        released.history()[4] == (Request::Unmap { addr: released.addr(), len: released.len() }),
{
}

/// Over the whole life of a mapping that was released, the kernel took two
/// notifications and no more: one that opened CPU access, after the region
/// was mapped, and one that closed it, before the region was unmapped. The
/// two match: they announce the same direction, and differ in the one bit
/// that tells the end from the beginning.
pub proof fn lemma_notifications_bracket_the_mapping(released: Released)
    ensures
        forall|i: int|
            0 <= i < 5 ==> ((#[trigger] released.history()[i] is Sync) <==> (i == 2 || i == 3)),
        released.history()[2] == opening(released.mode()),
        released.history()[3] == closing(released.mode()),
        flags_of(released.mode().direction_of(), Phase::End) == flags_of(
            released.mode().direction_of(),
            Phase::Begin,
        ) + DMA_BUF_SYNC_END,
{
}

/// Whatever was done with a mapping while it was alive, its release asks
/// first for the notification that closes what the last answered request had
/// opened, and then for the unmapping of its region.
pub proof fn lemma_release_closes_what_was_opened(
    mapping: Mapping,
    sync: EndSync,
    unmap: UnmapCall,
)
    requires
        sync.mode() == mapping.mode(),
        sync.len() == mapping.len(),
        sync.addr() == mapping.addr(),
        unmap.mode() == sync.mode(),
        unmap.len() == sync.len(),
        unmap.addr() == sync.addr(),
    ensures
        mapping.history().last() == opening(mapping.mode()),
        sync.pending() == closing(mapping.mode()),
        sync.history() == mapping.history(),
        unmap.history() == sync.history().push(sync.pending()),
        unmap.pending() == (Request::Unmap { addr: mapping.addr(), len: mapping.len() }),
{
}

} // verus!
