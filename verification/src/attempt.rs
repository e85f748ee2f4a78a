//! Making a mapping: the size query, the mapping request and the
//! notification that opens CPU access, each a step of its own type.
//!
//! An attempt can fail at each of the three. Before the region is mapped
//! there is nothing to undo. Once it is mapped, a rejected notification
//! leads to one more step, which unmaps the region again: whatever the
//! kernel has mapped for an attempt is unmapped exactly once, whether a
//! mapping came of it or not.

use crate::error::{MapError, NotifyError};
use crate::handle::{Access, DmaBuf};
use crate::length::{
    checked_mapping_length, lemma_page_aligned_length_is_smallest, length_fits, mapping_length,
    page_aligned_length,
};
use crate::mapped::Mapping;
use crate::request::{
    asked_for_access, asked_for_region, asked_for_size, opening, AccessMode, Request,
};
use crate::sync::{notify_outcome, sync_flags, Phase};
use rustix::io::Errno;
use vstd::prelude::*;

verus! {

/// Calls `rustix::param::page_size`. The page size is the host's to say, and
/// rustix passes on what the host reports, so nothing is claimed of it.
#[verifier::external_body]
pub(crate) fn host_page_size() -> (page: usize) {
    rustix::param::page_size()
}

/// Whether the host can go on from the answer `reply` to the size query, in
/// pages of `page` bytes: an error code always lets it, a size only where the
/// rounded length fits.
pub open spec fn size_reply_fits(reply: Result<i64, Errno>, page: usize) -> bool {
    match reply {
        Ok(size) => length_fits(size as int, page as int),
        Err(_) => true,
    }
}

/// First step: the kernel is asked for the size of the buffer.
#[derive(Debug)]
pub struct SizeQuery<'a> {
    access: Access<'a>,
}

/// Second step: the kernel is asked to map the buffer.
#[derive(Debug)]
pub struct MapCall<'a> {
    access: Access<'a>,
    size: usize,
    len: usize,
}

/// Third step: the kernel is told that CPU access begins.
#[derive(Debug)]
pub struct BeginSync<'a> {
    access: Access<'a>,
    size: usize,
    len: usize,
    addr: usize,
}

/// Last step of an attempt that the kernel stopped at the opening
/// notification: the region that was mapped for it is unmapped again.
#[derive(Debug)]
pub struct Unwind<'a> {
    access: Access<'a>,
    len: usize,
    addr: usize,
    failure: NotifyError,
}

impl DmaBuf {
    /// Starts mapping the buffer for the CPU to read it. The handle stays
    /// free for other read-only mappings.
    pub fn memory_map_ro(&self) -> (query: SizeQuery<'_>)
        ensures
            query.mode() == AccessMode::ReadOnly,
            query.fd() == self.fd(),
    {
        SizeQuery { access: Access::shared(self) }
    }

    /// Starts mapping the buffer for the CPU to read and write it. The handle
    /// is taken until the mapping is gone, and is then as it was.
    pub fn memory_map_rw(&mut self) -> (query: SizeQuery<'_>)
        ensures
            query.mode() == AccessMode::ReadWrite,
            query.fd() == old(self).fd(),
            *final(self) == *old(self),
    {
        SizeQuery { access: Access::exclusive(self, true) }
    }

    /// Starts mapping the buffer for the CPU to write it. The handle is taken
    /// until the mapping is gone, and is then as it was.
    pub fn memory_map_wo(&mut self) -> (query: SizeQuery<'_>)
        ensures
            query.mode() == AccessMode::WriteOnly,
            query.fd() == old(self).fd(),
            *final(self) == *old(self),
    {
        SizeQuery { access: Access::exclusive(self, false) }
    }
}

impl<'a> SizeQuery<'a> {
    /// What the mapping will let the CPU do.
    pub closed spec fn mode(self) -> AccessMode {
        self.access.mode()
    }

    /// The descriptor of the buffer.
    pub closed spec fn fd(self) -> i32 {
        self.access.fd()
    }

    /// The request that this step waits on.
    pub open spec fn pending(self) -> Request {
        Request::QuerySize
    }

    /// The requests answered so far: none.
    pub open spec fn history(self) -> Seq<Request> {
        Seq::empty()
    }

    /// `out` is what the answer `reply` leads to in pages of `page` bytes: the
    /// mapping request for the size rounded up to whole pages, or the failure
    /// of the query with the kernel's error code.
    pub open spec fn leads_to(
        self,
        reply: Result<i64, Errno>,
        page: usize,
        out: Result<MapCall<'a>, MapError>,
    ) -> bool {
        match reply {
            Ok(size) => {
                &&& out matches Ok(call)
                &&& call.mode() == self.mode()
                &&& call.fd() == self.fd()
                &&& call.size() == size
                &&& call.len() == page_aligned_length(size as int, page as int)
                &&& call.history() == self.history().push(self.pending())
            },
            Err(code) => {
                &&& out matches Err(err)
                &&& err is SizeQueryFailed
                &&& err.code() == code
            },
        }
    }

    /// What the mapping will let the CPU do.
    pub fn access_mode(&self) -> (mode: AccessMode)
        ensures
            mode == self.mode(),
    {
        self.access.access_mode()
    }

    /// The request to put to the kernel now.
    pub fn request(&self) -> (request: Request)
        ensures
            request == self.pending(),
    {
        Request::QuerySize
    }

    /// Takes the kernel's answer to the size query, on a host with pages of
    /// `page` bytes. A size leads to the request for a mapping of that size
    /// rounded up to whole pages; an error code ends the attempt.
    ///
    /// A size that the host cannot map is no input for this function: see
    /// [`SizeQuery::answered_on_host`] and [`checked_mapping_length`].
    pub fn answered(self, reply: Result<i64, Errno>, page: usize) -> (out: Result<
        MapCall<'a>,
        MapError,
    >)
        requires
            size_reply_fits(reply, page),
        ensures
            self.leads_to(reply, page, out),
    {
        match reply {
            Ok(size) => {
                proof {
                    lemma_page_aligned_length_is_smallest(size as int, page as int);
                }
                let len = mapping_length(size, page);
                Ok(MapCall { access: self.access, size: size as usize, len })
            },
            Err(code) => Err(MapError::size_query_failed(code)),
        }
    }

    /// Takes the kernel's answer to the size query, on a host with pages of
    /// `page` bytes, whatever the answer is. Where the host cannot map a
    /// buffer of the size answered, the query comes back unchanged as the
    /// error, for the caller to give up on: such a size is a defect, not a
    /// failure to report. Every other answer moves on as
    /// [`SizeQuery::answered`] says.
    pub fn answered_in_pages(self, reply: Result<i64, Errno>, page: usize) -> (out: Result<
        Result<MapCall<'a>, MapError>,
        SizeQuery<'a>,
    >)
        ensures
            size_reply_fits(reply, page) ==> (out matches Ok(step) && self.leads_to(
                reply,
                page,
                step,
            )),
            !size_reply_fits(reply, page) ==> out == Err::<
                Result<MapCall<'a>, MapError>,
                SizeQuery<'a>,
            >(self),
    {
        let fits: bool = match reply {
            Ok(size) => checked_mapping_length(size, page).is_some(),
            Err(_) => true,
        };
        if fits {
            Ok(self.answered(reply, page))
        } else {
            Err(self)
        }
    }

    /// Takes the kernel's answer to the size query, with the page size that
    /// the host reports: [`SizeQuery::answered_in_pages`] for that page
    /// size.
    pub fn answered_on_host(self, reply: Result<i64, Errno>) -> (out: Result<
        Result<MapCall<'a>, MapError>,
        SizeQuery<'a>,
    >)
        ensures
            match out {
                Ok(step) => exists|page: usize| #[trigger]
                    size_reply_fits(reply, page) && self.leads_to(reply, page, step),
                Err(query) => {
                    &&& query == self
                    &&& exists|page: usize| !#[trigger] size_reply_fits(reply, page)
                },
            },
            reply is Err ==> out is Ok,
            reply matches Ok(size) && size < 0 ==> out is Err,
    {
        let page: usize = host_page_size();
        let out = self.answered_in_pages(reply, page);
        assert(out is Ok <==> size_reply_fits(reply, page));
        out
    }
}

impl<'a> MapCall<'a> {
    /// The region will hold the whole buffer.
    #[verifier::type_invariant]
    spec fn holds_the_buffer(self) -> bool {
        self.size <= self.len
    }

    /// What the mapping will let the CPU do.
    pub closed spec fn mode(self) -> AccessMode {
        self.access.mode()
    }

    /// The descriptor of the buffer.
    pub closed spec fn fd(self) -> i32 {
        self.access.fd()
    }

    /// The size of the buffer, as the kernel reported it.
    pub closed spec fn size(self) -> usize {
        self.size
    }

    /// The length of the region to map.
    pub closed spec fn len(self) -> usize {
        self.len
    }

    /// The request that this step waits on.
    pub open spec fn pending(self) -> Request {
        Request::MapRegion { len: self.len() }
    }

    /// The requests answered so far.
    pub open spec fn history(self) -> Seq<Request> {
        asked_for_size()
    }

    /// What the mapping will let the CPU do.
    pub fn access_mode(&self) -> (mode: AccessMode)
        ensures
            mode == self.mode(),
    {
        self.access.access_mode()
    }

    /// The request to put to the kernel now. The region that it asks for is
    /// no shorter than the buffer.
    pub fn request(&self) -> (request: Request)
        ensures
            request == self.pending(),
            self.size() <= self.len(),
    {
        proof {
            use_type_invariant(self);
        }
        Request::MapRegion { len: self.len }
    }

    /// Takes the kernel's answer to the mapping request. An address leads to
    /// the notification that opens CPU access; an error code ends the
    /// attempt. The kernel maps nothing at address zero.
    pub fn answered(self, reply: Result<usize, Errno>) -> (out: Result<BeginSync<'a>, MapError>)
        requires
            reply != Ok::<usize, Errno>(0),
        ensures
            match reply {
                Ok(addr) => {
                    &&& out matches Ok(sync)
                    &&& sync.mode() == self.mode()
                    &&& sync.fd() == self.fd()
                    &&& sync.size() == self.size()
                    &&& sync.len() == self.len()
                    &&& sync.addr() == addr
                    &&& sync.history() == self.history().push(self.pending())
                },
                Err(code) => {
                    &&& out matches Err(err)
                    &&& err is MappingFailed
                    &&& err.code() == code
                },
            },
    {
        proof {
            use_type_invariant(&self);
        }
        match reply {
            Ok(addr) => Ok(
                BeginSync { access: self.access, size: self.size, len: self.len, addr },
            ),
            Err(code) => Err(MapError::mapping_failed(code)),
        }
    }
}

impl<'a> BeginSync<'a> {
    /// The region holds the whole buffer, and does not start at address
    /// zero.
    #[verifier::type_invariant]
    spec fn holds_the_buffer(self) -> bool {
        self.size <= self.len && self.addr != 0
    }

    /// What the mapping will let the CPU do.
    pub closed spec fn mode(self) -> AccessMode {
        self.access.mode()
    }

    /// The descriptor of the buffer.
    pub closed spec fn fd(self) -> i32 {
        self.access.fd()
    }

    /// The size of the buffer, as the kernel reported it.
    pub closed spec fn size(self) -> usize {
        self.size
    }

    /// The length of the mapped region.
    pub closed spec fn len(self) -> usize {
        self.len
    }

    /// Where the mapped region starts.
    pub closed spec fn addr(self) -> usize {
        self.addr
    }

    /// The request that this step waits on.
    pub open spec fn pending(self) -> Request {
        opening(self.mode())
    }

    /// The requests answered so far.
    pub open spec fn history(self) -> Seq<Request> {
        asked_for_region(self.len())
    }

    /// What the mapping will let the CPU do.
    pub fn access_mode(&self) -> (mode: AccessMode)
        ensures
            mode == self.mode(),
    {
        self.access.access_mode()
    }

    /// The request to put to the kernel now.
    pub fn request(&self) -> (request: Request)
        ensures
            request == self.pending(),
    {
        Request::Sync { flags: sync_flags(self.access.direction(), Phase::Begin) }
    }

    /// Takes the kernel's answer to the opening notification. Success gives
    /// the mapping, in the form that was asked for. A rejection leaves a
    /// region that no mapping will ever release, so the attempt goes on to
    /// unmap it, and fails after that.
    pub fn answered(self, reply: Result<(), Errno>) -> (out: Result<Mapping<'a>, Unwind<'a>>)
        ensures
            match reply {
                Ok(()) => {
                    &&& out matches Ok(mapping)
                    &&& mapping.mode() == self.mode()
                    &&& mapping.fd() == self.fd()
                    &&& mapping.size() == self.size()
                    &&& mapping.len() == self.len()
                    &&& mapping.addr() == self.addr()
                    &&& mapping.history() == self.history().push(self.pending())
                },
                Err(code) => {
                    &&& out matches Err(unwind)
                    &&& unwind.mode() == self.mode()
                    &&& unwind.fd() == self.fd()
                    &&& unwind.len() == self.len()
                    &&& unwind.addr() == self.addr()
                    &&& unwind.failure().source == code
                    &&& unwind.history() == self.history().push(self.pending())
                },
            },
    {
        proof {
            use_type_invariant(&self);
        }
        let BeginSync { access, size, len, addr } = self;
        match notify_outcome(reply) {
            Ok(()) => Ok(Mapping::open(access, size, len, addr)),
            Err(failure) => Err(Unwind { access, len, addr, failure }),
        }
    }
}

impl<'a> Unwind<'a> {
    /// What the mapping would have let the CPU do.
    pub closed spec fn mode(self) -> AccessMode {
        self.access.mode()
    }

    /// The descriptor of the buffer.
    pub closed spec fn fd(self) -> i32 {
        self.access.fd()
    }

    /// The length of the mapped region.
    pub closed spec fn len(self) -> usize {
        self.len
    }

    /// Where the mapped region starts.
    pub closed spec fn addr(self) -> usize {
        self.addr
    }

    /// The rejection of the opening notification.
    pub closed spec fn failure(self) -> NotifyError {
        self.failure
    }

    /// The request that this step waits on.
    pub open spec fn pending(self) -> Request {
        Request::Unmap { addr: self.addr(), len: self.len() }
    }

    /// The requests answered so far: the opening notification is among
    /// them, and no closing one.
    pub open spec fn history(self) -> Seq<Request> {
        asked_for_access(self.mode(), self.len())
    }

    /// What the mapping would have let the CPU do.
    pub fn access_mode(&self) -> (mode: AccessMode)
        ensures
            mode == self.mode(),
    {
        self.access.access_mode()
    }

    /// The request to put to the kernel now.
    pub fn request(&self) -> (request: Request)
        ensures
            request == self.pending(),
    {
        Request::Unmap { addr: self.addr, len: self.len }
    }

    /// Takes the kernel's answer to the unmapping. Whatever it is, the
    /// attempt has failed for the rejected notification, with the reason and
    /// the error code of that rejection. A failure of the unmapping is only
    /// kept for the record, beside that error.
    pub fn answered(self, reply: Result<(), Errno>) -> (out: (MapError, Option<Errno>))
        ensures
            out.0 == (MapError::FdAccess {
                reason: self.failure().reason,
                source: self.failure().source,
            }),
            out.1 == match reply {
                Ok(()) => None::<Errno>,
                Err(code) => Some(code),
            },
    {
        let unmap_failure = match reply {
            Ok(()) => None,
            Err(code) => Some(code),
        };
        (MapError::fd_access(self.failure), unmap_failure)
    }
}

} // verus!
