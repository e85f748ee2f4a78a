//! How long a mapping is: the size of the buffer, rounded up to whole pages.

use vstd::prelude::*;

verus! {

/// `length` is a whole number of pages of `page` bytes.
pub open spec fn is_page_multiple(length: int, page: int) -> bool {
    length % page == 0
}

/// `length` is the smallest multiple of `page` that is at least `size`.
pub open spec fn is_smallest_page_multiple(length: int, size: int, page: int) -> bool {
    &&& is_page_multiple(length, page)
    &&& length >= size
    &&& forall|other: int|
        #[trigger] is_page_multiple(other, page) && other >= size ==> other >= length
}

/// `size` rounded up to whole pages of `page` bytes.
pub open spec fn page_aligned_length(size: int, page: int) -> int {
    ((size + page - 1) / page) * page
}

/// Whether a buffer of `size` bytes can be mapped on this host in pages of
/// `page` bytes: the size is no negative number, there is a page size, and
/// the rounded length is one that `usize` can hold.
pub open spec fn length_fits(size: int, page: int) -> bool {
    &&& 0 <= size
    &&& 0 < page
    &&& page_aligned_length(size, page) <= usize::MAX
}

/// Rounding up adds what the size lacks to the next page boundary, and
/// nothing where it already lies on one.
pub proof fn lemma_page_aligned_length_by_remainder(size: int, page: int)
    requires
        0 <= size,
        0 < page,
    ensures
        size % page == 0 ==> page_aligned_length(size, page) == size,
        size % page != 0 ==> page_aligned_length(size, page) == size - size % page + page,
{
    let q = size / page;
    let r = size % page;
    assert(size == q * page + r && 0 <= r < page) by (nonlinear_arith)
        requires
            0 < page,
            q == size / page,
            r == size % page,
    ;
    if r == 0 {
        assert((q * page + page - 1) / page == q) by (nonlinear_arith)
            requires
                0 < page,
        ;
    } else {
        assert((q * page + r + page - 1) / page == q + 1) by (nonlinear_arith)
            requires
                0 < page,
                0 < r < page,
        ;
        assert((q + 1) * page == q * page + page) by (nonlinear_arith);
    }
}

/// The rounded length is the smallest multiple of the page size that is at
/// least the size of the buffer.
pub proof fn lemma_page_aligned_length_is_smallest(size: int, page: int)
    requires
        0 <= size,
        0 < page,
    ensures
        is_smallest_page_multiple(page_aligned_length(size, page), size, page),
{
    let length = page_aligned_length(size, page);
    let pages = (size + page - 1) / page;
    lemma_page_aligned_length_by_remainder(size, page);
    assert(length % page == 0) by (nonlinear_arith)
        requires
            0 < page,
            length == pages * page,
    ;
    assert(0 <= size % page < page) by (nonlinear_arith)
        requires
            0 < page,
    ;
    assert forall|other: int| #[trigger] is_page_multiple(other, page) && other >= size implies other
        >= length by {
        let k = other / page;
        assert(other == k * page) by (nonlinear_arith)
            requires
                0 < page,
                other % page == 0,
                k == other / page,
        ;
        if other < length {
            assert(k < pages) by (nonlinear_arith)
                requires
                    0 < page,
                    k * page < pages * page,
            ;
            assert(k * page <= (pages - 1) * page) by (nonlinear_arith)
                requires
                    0 < page,
                    k <= pages - 1,
            ;
            assert((pages - 1) * page == length - page) by (nonlinear_arith)
                requires
                    length == pages * page,
            ;
            assert(length - page < size);
        }
    }
}

/// Only one length is the smallest multiple of the page size at or above a
/// size.
pub proof fn lemma_smallest_page_multiple_is_unique(a: int, b: int, size: int, page: int)
    requires
        is_smallest_page_multiple(a, size, page),
        is_smallest_page_multiple(b, size, page),
    ensures
        a == b,
{
}

/// The length to map for a buffer of `size` bytes in pages of `page` bytes,
/// where the host can hold it, and `None` where it cannot.
pub fn checked_mapping_length(size: i64, page: usize) -> (length: Option<usize>)
    ensures
        length_fits(size as int, page as int) ==> length == Some(
            page_aligned_length(size as int, page as int) as usize,
        ),
        !length_fits(size as int, page as int) ==> length is None,
        length matches Some(bytes) ==> is_smallest_page_multiple(
            bytes as int,
            size as int,
            page as int,
        ),
{
    if size < 0 || page == 0 {
        return None;
    }
    proof {
        lemma_page_aligned_length_is_smallest(size as int, page as int);
        lemma_page_aligned_length_by_remainder(size as int, page as int);
        assert(0 <= (size as int) % (page as int) < page) by (nonlinear_arith)
            requires
                0 < page,
        ;
    }
    if size as u64 > usize::MAX as u64 {
        return None;
    }
    let bytes: usize = size as usize;
    let over: usize = bytes % page;
    if over == 0 {
        Some(bytes)
    } else {
        let lacking: usize = page - over;
        if bytes > usize::MAX - lacking {
            None
        } else {
            Some(bytes + lacking)
        }
    }
}

/// The length to map for a buffer of `size` bytes in pages of `page` bytes:
/// the smallest multiple of the page size that is at least the size.
pub fn mapping_length(size: i64, page: usize) -> (length: usize)
    requires
        length_fits(size as int, page as int),
    ensures
        length == page_aligned_length(size as int, page as int),
        is_smallest_page_multiple(length as int, size as int, page as int),
{
    proof {
        lemma_page_aligned_length_is_smallest(size as int, page as int);
    }
    match checked_mapping_length(size, page) {
        Some(length) => length,
        None => 0,
    }
}

} // verus!
