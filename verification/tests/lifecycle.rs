use dma_buf::{
    AccessMode, DmaBuf, MapError, MappedDmaBufRo, MappedDmaBufRw, MappedDmaBufWo, Mapping,
    Request, SizeQuery,
};
use rustix::io::Errno;

fn mapped(query: SizeQuery<'_>, size: i64, addr: usize) -> Mapping<'_> {
    let call = query.answered(Ok(size), 4096).unwrap();
    let sync = call.answered(Ok(addr)).unwrap();
    sync.answered(Ok(())).unwrap()
}

fn read_only(mapping: Mapping<'_>) -> MappedDmaBufRo<'_> {
    match mapping {
        Mapping::ReadOnly(inner) => inner,
        _ => panic!("not a read-only mapping"),
    }
}

fn write_only(mapping: Mapping<'_>) -> MappedDmaBufWo<'_> {
    match mapping {
        Mapping::WriteOnly(inner) => inner,
        _ => panic!("not a write-only mapping"),
    }
}

fn read_write(mapping: Mapping<'_>) -> MappedDmaBufRw<'_> {
    match mapping {
        Mapping::ReadWrite(inner) => inner,
        _ => panic!("not a read-write mapping"),
    }
}

#[test]
fn handle_keeps_its_descriptor() {
    assert_eq!(DmaBuf::new(7).as_raw_fd(), 7);
    assert_eq!(DmaBuf::new(0).as_raw_fd(), 0);
}

#[test]
fn each_way_of_mapping_has_its_mode() {
    let mut buf = DmaBuf::new(3);
    assert_eq!(buf.memory_map_ro().access_mode(), AccessMode::ReadOnly);
    assert_eq!(buf.memory_map_rw().access_mode(), AccessMode::ReadWrite);
    assert_eq!(buf.memory_map_wo().access_mode(), AccessMode::WriteOnly);
}

#[test]
fn modes_announce_their_direction() {
    assert_eq!(AccessMode::ReadOnly.direction(), dma_buf::Direction::Read);
    assert_eq!(AccessMode::WriteOnly.direction(), dma_buf::Direction::Write);
    assert_eq!(AccessMode::ReadWrite.direction(), dma_buf::Direction::ReadWrite);
}

#[test]
fn read_only_life_from_query_to_unmapping() {
    let buf = DmaBuf::new(3);
    let query = buf.memory_map_ro();
    assert_eq!(query.request(), Request::QuerySize);

    let call = query.answered(Ok(10), 4096).unwrap();
    assert_eq!(call.access_mode(), AccessMode::ReadOnly);
    assert_eq!(call.request(), Request::MapRegion { len: 4096 });

    let sync = call.answered(Ok(0x7000_0000)).unwrap();
    assert_eq!(sync.access_mode(), AccessMode::ReadOnly);
    assert_eq!(sync.request(), Request::Sync { flags: 1 });

    let mapping = sync.answered(Ok(())).unwrap();
    assert_eq!(mapping.access_mode(), AccessMode::ReadOnly);
    let mapping = read_only(mapping);
    assert_eq!(mapping.buffer_size(), 10);
    assert_eq!(mapping.length(), 4096);
    assert_eq!(mapping.address(), 0x7000_0000);

    let end = mapping.release();
    assert_eq!(end.access_mode(), AccessMode::ReadOnly);
    assert_eq!(end.request(), Request::Sync { flags: 5 });

    let unmap = end.answered(Ok(()));
    assert_eq!(
        unmap.request(),
        Request::Unmap { addr: 0x7000_0000, len: 4096 }
    );

    let released = unmap.answered(Ok(()));
    assert!(released.end_sync_failure().is_none());
    assert_eq!(released.unmapping_failure(), None);
}

#[test]
fn write_only_life_announces_writing() {
    let mut buf = DmaBuf::new(4);
    let query = buf.memory_map_wo();
    let call = query.answered(Ok(8192), 4096).unwrap();
    assert_eq!(call.request(), Request::MapRegion { len: 8192 });
    let sync = call.answered(Ok(0x1000)).unwrap();
    assert_eq!(sync.request(), Request::Sync { flags: 2 });
    let mapping = write_only(sync.answered(Ok(())).unwrap());
    assert_eq!(mapping.buffer_size(), 8192);
    assert_eq!(mapping.length(), 8192);
    assert_eq!(mapping.address(), 0x1000);
    let end = mapping.release();
    assert_eq!(end.request(), Request::Sync { flags: 6 });
    let unmap = end.answered(Ok(()));
    assert_eq!(unmap.request(), Request::Unmap { addr: 0x1000, len: 8192 });
}

#[test]
fn read_write_life_announces_both() {
    let mut buf = DmaBuf::new(5);
    let query = buf.memory_map_rw();
    let call = query.answered(Ok(4097), 4096).unwrap();
    assert_eq!(call.request(), Request::MapRegion { len: 8192 });
    let sync = call.answered(Ok(0x2000)).unwrap();
    assert_eq!(sync.request(), Request::Sync { flags: 3 });
    let mapping = read_write(sync.answered(Ok(())).unwrap());
    assert_eq!(mapping.buffer_size(), 4097);
    assert_eq!(mapping.length(), 8192);
    assert_eq!(mapping.address(), 0x2000);
    let end = mapping.release();
    assert_eq!(end.request(), Request::Sync { flags: 7 });
    let unmap = end.answered(Ok(()));
    assert_eq!(unmap.request(), Request::Unmap { addr: 0x2000, len: 8192 });
}

#[test]
fn mapping_comes_in_the_form_asked_for() {
    let mut buf = DmaBuf::new(3);
    assert!(matches!(mapped(buf.memory_map_ro(), 1, 0x1000), Mapping::ReadOnly(_)));
    assert!(matches!(mapped(buf.memory_map_wo(), 1, 0x1000), Mapping::WriteOnly(_)));
    assert!(matches!(mapped(buf.memory_map_rw(), 1, 0x1000), Mapping::ReadWrite(_)));
}

#[test]
fn two_read_only_mappings_of_one_handle() {
    let buf = DmaBuf::new(3);
    let first = read_only(mapped(buf.memory_map_ro(), 10, 0x1000));
    let second = read_only(mapped(buf.memory_map_ro(), 10, 0x9000));
    assert_eq!(first.length(), 4096);
    assert_eq!(second.length(), 4096);
    assert_eq!(first.address(), 0x1000);
    assert_eq!(second.address(), 0x9000);
    let released_second = second.release().answered(Ok(())).answered(Ok(()));
    let released_first = first.release().answered(Ok(())).answered(Ok(()));
    assert_eq!(released_first.unmapping_failure(), None);
    assert_eq!(released_second.unmapping_failure(), None);
}

#[test]
fn handle_is_free_again_after_an_exclusive_mapping() {
    let mut buf = DmaBuf::new(3);
    let writer = write_only(mapped(buf.memory_map_wo(), 10, 0x1000));
    let released = writer.release().answered(Ok(())).answered(Ok(()));
    assert_eq!(released.unmapping_failure(), None);
    let reader = read_only(mapped(buf.memory_map_ro(), 10, 0x1000));
    assert_eq!(reader.length(), 4096);
    let again = read_write(mapped(buf.memory_map_rw(), 10, 0x1000));
    assert_eq!(again.length(), 4096);
}

#[test]
fn failed_size_query_ends_the_attempt() {
    let buf = DmaBuf::new(3);
    let err = buf.memory_map_ro().answered(Err(Errno::BADF), 4096).unwrap_err();
    assert!(matches!(
        &err,
        MapError::SizeQueryFailed { reason, source }
            if *source == Errno::BADF && *reason == Errno::BADF.to_string()
    ));
    assert_eq!(err.source(), Errno::BADF);
}

#[test]
fn failed_size_query_needs_no_page_size() {
    let buf = DmaBuf::new(3);
    let err = buf.memory_map_ro().answered(Err(Errno::IO), 0).unwrap_err();
    assert!(matches!(err, MapError::SizeQueryFailed { source, .. } if source == Errno::IO));
}

#[test]
fn refused_mapping_ends_the_attempt() {
    let mut buf = DmaBuf::new(3);
    let call = buf.memory_map_rw().answered(Ok(10), 4096).unwrap();
    let err = call.answered(Err(Errno::NOMEM)).unwrap_err();
    assert!(matches!(
        &err,
        MapError::MappingFailed { reason, source }
            if *source == Errno::NOMEM && *reason == Errno::NOMEM.to_string()
    ));
    assert_eq!(err.source(), Errno::NOMEM);
}

#[test]
fn rejected_opening_notification_unmaps_and_fails() {
    let mut buf = DmaBuf::new(3);
    let call = buf.memory_map_wo().answered(Ok(10), 4096).unwrap();
    let sync = call.answered(Ok(0x1000)).unwrap();
    let unwind = sync.answered(Err(Errno::NOTTY)).unwrap_err();
    assert_eq!(unwind.access_mode(), AccessMode::WriteOnly);
    assert_eq!(unwind.request(), Request::Unmap { addr: 0x1000, len: 4096 });
    let (err, unmap_failure) = unwind.answered(Ok(()));
    assert!(matches!(
        &err,
        MapError::FdAccess { reason, source }
            if *source == Errno::NOTTY && *reason == Errno::NOTTY.to_string()
    ));
    assert_eq!(err.source(), Errno::NOTTY);
    assert_eq!(unmap_failure, None);
}

#[test]
fn rejected_opening_notification_stands_past_a_failed_unmapping() {
    let buf = DmaBuf::new(3);
    let call = buf.memory_map_ro().answered(Ok(10), 4096).unwrap();
    let sync = call.answered(Ok(0x1000)).unwrap();
    let unwind = sync.answered(Err(Errno::NOTTY)).unwrap_err();
    let (err, unmap_failure) = unwind.answered(Err(Errno::INVAL));
    assert_eq!(
        err,
        MapError::FdAccess { reason: Errno::NOTTY.to_string(), source: Errno::NOTTY }
    );
    assert_eq!(unmap_failure, Some(Errno::INVAL));
}

#[test]
fn failed_attempt_past_the_mapping_asks_four_requests_in_order() {
    let mut buf = DmaBuf::new(3);
    let mut asked: Vec<Request> = Vec::new();
    let query = buf.memory_map_rw();
    asked.push(query.request());
    let call = query.answered(Ok(100), 64).unwrap();
    asked.push(call.request());
    let sync = call.answered(Ok(0x4000)).unwrap();
    asked.push(sync.request());
    let unwind = sync.answered(Err(Errno::BADF)).unwrap_err();
    asked.push(unwind.request());
    let _failed = unwind.answered(Ok(()));
    assert_eq!(
        asked,
        vec![
            Request::QuerySize,
            Request::MapRegion { len: 128 },
            Request::Sync { flags: 3 },
            Request::Unmap { addr: 0x4000, len: 128 },
        ]
    );
}

#[test]
fn handle_is_free_again_after_a_failed_attempt() {
    let mut buf = DmaBuf::new(3);
    assert!(buf.memory_map_rw().answered(Err(Errno::BADF), 4096).is_err());
    let mapping = mapped(buf.memory_map_wo(), 10, 0x1000);
    assert_eq!(mapping.access_mode(), AccessMode::WriteOnly);
}

#[test]
fn map_error_from_a_rejected_notification() {
    let err = MapError::fd_access(dma_buf::NotifyError::new(Errno::INVAL));
    assert_eq!(
        err,
        MapError::FdAccess { reason: Errno::INVAL.to_string(), source: Errno::INVAL }
    );
}

#[test]
fn map_errors_are_told_apart() {
    assert!(matches!(
        MapError::size_query_failed(Errno::BADF),
        MapError::SizeQueryFailed { .. }
    ));
    assert!(matches!(
        MapError::mapping_failed(Errno::BADF),
        MapError::MappingFailed { .. }
    ));
    assert_ne!(
        MapError::size_query_failed(Errno::BADF),
        MapError::mapping_failed(Errno::BADF)
    );
    assert_ne!(
        MapError::mapping_failed(Errno::BADF),
        MapError::mapping_failed(Errno::NOMEM)
    );
}

#[test]
fn release_goes_on_past_a_rejected_closing_notification() {
    let buf = DmaBuf::new(3);
    let mapping = read_only(mapped(buf.memory_map_ro(), 10, 0x1000));
    let unmap = mapping.release().answered(Err(Errno::INVAL));
    assert_eq!(unmap.request(), Request::Unmap { addr: 0x1000, len: 4096 });
    let released = unmap.answered(Ok(()));
    let failure = released.end_sync_failure().unwrap();
    assert_eq!(failure.source, Errno::INVAL);
    assert_eq!(failure.reason, Errno::INVAL.to_string());
    assert_eq!(released.unmapping_failure(), None);
}

#[test]
fn release_ends_even_when_unmapping_fails() {
    let mut buf = DmaBuf::new(3);
    let mapping = read_write(mapped(buf.memory_map_rw(), 10, 0x1000));
    let released = mapping.release().answered(Ok(())).answered(Err(Errno::INVAL));
    assert!(released.end_sync_failure().is_none());
    assert_eq!(released.unmapping_failure(), Some(Errno::INVAL));
}

#[test]
fn release_keeps_both_failures() {
    let mut buf = DmaBuf::new(3);
    let mapping = mapped(buf.memory_map_wo(), 10, 0x1000);
    let released = mapping.release().answered(Err(Errno::BADF)).answered(Err(Errno::INVAL));
    assert_eq!(released.end_sync_failure().unwrap().source, Errno::BADF);
    assert_eq!(released.unmapping_failure(), Some(Errno::INVAL));
}

#[test]
fn release_of_any_form_starts_with_the_matching_end() {
    let mut buf = DmaBuf::new(3);
    let end = mapped(buf.memory_map_ro(), 1, 0x1000).release();
    assert_eq!(end.request(), Request::Sync { flags: 5 });
    let end = mapped(buf.memory_map_wo(), 1, 0x1000).release();
    assert_eq!(end.request(), Request::Sync { flags: 6 });
    let end = mapped(buf.memory_map_rw(), 1, 0x1000).release();
    assert_eq!(end.request(), Request::Sync { flags: 7 });
}

#[test]
fn whole_life_asks_five_requests_in_order() {
    let mut buf = DmaBuf::new(3);
    let mut asked: Vec<Request> = Vec::new();
    let query = buf.memory_map_rw();
    asked.push(query.request());
    let call = query.answered(Ok(100), 64).unwrap();
    asked.push(call.request());
    let sync = call.answered(Ok(0x4000)).unwrap();
    asked.push(sync.request());
    let end = sync.answered(Ok(())).unwrap().release();
    asked.push(end.request());
    let unmap = end.answered(Ok(()));
    asked.push(unmap.request());
    let _released = unmap.answered(Ok(()));
    assert_eq!(
        asked,
        vec![
            Request::QuerySize,
            Request::MapRegion { len: 128 },
            Request::Sync { flags: 3 },
            Request::Sync { flags: 7 },
            Request::Unmap { addr: 0x4000, len: 128 },
        ]
    );
    let unmaps = asked.iter().filter(|r| matches!(r, Request::Unmap { .. })).count();
    assert_eq!(unmaps, 1);
}

#[test]
fn host_page_size_is_the_one_rustix_reports() {
    let page = rustix::param::page_size();
    assert!(page > 1);
    let buf = DmaBuf::new(3);
    let call = buf.memory_map_ro().answered_on_host(Ok(1)).unwrap().unwrap();
    assert_eq!(call.request(), Request::MapRegion { len: page });
    let call = buf
        .memory_map_ro()
        .answered_on_host(Ok(page as i64 + 1))
        .unwrap()
        .unwrap();
    assert_eq!(call.request(), Request::MapRegion { len: 2 * page });
    let call = buf.memory_map_ro().answered_on_host(Ok(0)).unwrap().unwrap();
    assert_eq!(call.request(), Request::MapRegion { len: 0 });
}

#[test]
fn failed_size_query_on_host() {
    let buf = DmaBuf::new(3);
    let step = buf.memory_map_ro().answered_on_host(Err(Errno::BADF)).unwrap();
    assert!(matches!(
        step.unwrap_err(),
        MapError::SizeQueryFailed { source, .. } if source == Errno::BADF
    ));
}

#[test]
fn negative_size_hands_the_query_back() {
    let mut buf = DmaBuf::new(3);
    let query = buf.memory_map_wo().answered_on_host(Ok(-1)).unwrap_err();
    assert_eq!(query.access_mode(), AccessMode::WriteOnly);
    assert_eq!(query.request(), Request::QuerySize);
    let call = query.answered(Ok(10), 4096).unwrap();
    assert_eq!(call.request(), Request::MapRegion { len: 4096 });
}

#[test]
fn mapping_is_never_shorter_than_its_buffer() {
    let buf = DmaBuf::new(3);
    for size in [0i64, 1, 4095, 4096, 4097, 10_000] {
        let mapping = read_only(mapped(buf.memory_map_ro(), size, 0x1000));
        assert_eq!(mapping.buffer_size() as i64, size);
        assert!(mapping.length() >= mapping.buffer_size());
        assert!(mapping.length() < mapping.buffer_size() + 4096);
        assert_eq!(mapping.length() % 4096, 0);
    }
}

#[test]
fn released_mapping_remembers_its_mode() {
    let mut buf = DmaBuf::new(3);
    let released = mapped(buf.memory_map_rw(), 1, 0x1000)
        .release()
        .answered(Ok(()))
        .answered(Ok(()));
    assert_eq!(released.access_mode(), AccessMode::ReadWrite);
    let released = mapped(buf.memory_map_ro(), 1, 0x1000)
        .release()
        .answered(Ok(()))
        .answered(Ok(()));
    assert_eq!(released.access_mode(), AccessMode::ReadOnly);
}

#[test]
fn size_answer_in_pages_moves_on_where_the_length_fits() {
    let buf = DmaBuf::new(3);
    let call = buf.memory_map_ro().answered_in_pages(Ok(10), 4096).unwrap().unwrap();
    assert_eq!(call.request(), Request::MapRegion { len: 4096 });
    let call = buf.memory_map_ro().answered_in_pages(Ok(4097), 4096).unwrap().unwrap();
    assert_eq!(call.request(), Request::MapRegion { len: 8192 });
    let call = buf.memory_map_ro().answered_in_pages(Ok(0), 1).unwrap().unwrap();
    assert_eq!(call.request(), Request::MapRegion { len: 0 });
}

#[test]
fn size_answer_in_pages_hands_the_query_back_where_it_does_not_fit() {
    let mut buf = DmaBuf::new(3);
    let query = buf.memory_map_rw().answered_in_pages(Ok(-1), 4096).unwrap_err();
    assert_eq!(query.access_mode(), AccessMode::ReadWrite);
    let query = query.answered_in_pages(Ok(10), 0).unwrap_err();
    assert_eq!(query.access_mode(), AccessMode::ReadWrite);
    assert_eq!(query.request(), Request::QuerySize);
    let call = query.answered_in_pages(Ok(10), 16).unwrap().unwrap();
    assert_eq!(call.request(), Request::MapRegion { len: 16 });
}

#[test]
fn size_answer_in_pages_reports_a_failed_query_for_any_page_size() {
    let buf = DmaBuf::new(3);
    for page in [0usize, 1, 4096, usize::MAX] {
        let step = buf.memory_map_ro().answered_in_pages(Err(Errno::BADF), page).unwrap();
        assert!(matches!(
            step.unwrap_err(),
            MapError::SizeQueryFailed { source, .. } if source == Errno::BADF
        ));
    }
}

#[test]
fn handle_keeps_its_descriptor_through_every_mapping() {
    let mut buf = DmaBuf::new(11);
    let released = mapped(buf.memory_map_rw(), 10, 0x1000)
        .release()
        .answered(Ok(()))
        .answered(Ok(()));
    assert_eq!(released.unmapping_failure(), None);
    assert_eq!(buf.as_raw_fd(), 11);
    let _let_go = buf.memory_map_wo();
    assert_eq!(buf.as_raw_fd(), 11);
    assert!(buf.memory_map_wo().answered(Err(Errno::BADF), 4096).is_err());
    assert_eq!(buf.as_raw_fd(), 11);
    let unwind = buf
        .memory_map_rw()
        .answered(Ok(10), 4096)
        .unwrap()
        .answered(Ok(0x1000))
        .unwrap()
        .answered(Err(Errno::NOTTY))
        .unwrap_err();
    let _failed = unwind.answered(Ok(()));
    assert_eq!(buf.as_raw_fd(), 11);
    let reader = mapped(buf.memory_map_ro(), 10, 0x1000);
    assert_eq!(buf.as_raw_fd(), 11);
    let _released = reader.release().answered(Ok(())).answered(Ok(()));
    assert_eq!(buf.as_raw_fd(), 11);
}
