//! Cutting a linear buffer into fixed-size pages.
//!
//! A buffer of `len` bytes is projected into guest memory one window of
//! `page_size` bytes at a time. Page `index` holds the bytes from
//! `index * page_size` up to the next page boundary or the end of the buffer,
//! whichever comes first; every page behind the end is empty.

use vstd::prelude::*;

verus! {

/// Offset of the first byte of page `index`, clipped to the buffer's length.
pub open spec fn page_start(len: nat, page_size: nat, index: nat) -> nat {
    if index * page_size < len {
        index * page_size
    } else {
        len
    }
}

/// Offset one past the last byte of page `index`.
pub open spec fn page_end(len: nat, page_size: nat, index: nat) -> nat {
    page_start(len, page_size, index + 1)
}

/// The bytes of page `index` of `data`.
pub open spec fn page(data: Seq<u8>, page_size: nat, index: nat) -> Seq<u8> {
    data.subrange(
        page_start(data.len(), page_size, index) as int,
        page_end(data.len(), page_size, index) as int,
    )
}

/// The number of pages that hold at least one byte: `len / page_size`, rounded up.
pub open spec fn page_count(len: nat, page_size: nat) -> nat
    recommends
        page_size > 0,
{
    if len % page_size == 0 {
        len / page_size
    } else {
        len / page_size + 1
    }
}

/// The pages `0 .. count` of `data`, one after the other.
pub open spec fn pages(data: Seq<u8>, page_size: nat, count: nat) -> Seq<u8>
    decreases count,
{
    if count == 0 {
        Seq::empty()
    } else {
        pages(data, page_size, (count - 1) as nat) + page(data, page_size, (count - 1) as nat)
    }
}

/// Page starts never decrease with the index and never pass the end.
pub proof fn lemma_page_start_monotonic(len: nat, page_size: nat, i: nat, j: nat)
    requires
        i <= j,
    ensures
        page_start(len, page_size, i) <= page_start(len, page_size, j) <= len,
{
    assert(i * page_size <= j * page_size) by (nonlinear_arith)
        requires
            i <= j,
    ;
}

/// A page is a window into the buffer of at most `page_size` bytes.
pub proof fn lemma_page_bounds(data: Seq<u8>, page_size: nat, index: nat)
    ensures
        page_start(data.len(), page_size, index) <= page_end(data.len(), page_size, index)
            <= data.len(),
        page(data, page_size, index).len() == page_end(data.len(), page_size, index) - page_start(
            data.len(),
            page_size,
            index,
        ),
        page(data, page_size, index).len() <= page_size,
        forall|k: int|
            0 <= k < page(data, page_size, index).len() ==> #[trigger] page(
                data,
                page_size,
                index,
            )[k] == data[page_start(data.len(), page_size, index) + k],
{
    lemma_page_start_monotonic(data.len(), page_size, index, index + 1);
    assert((index + 1) * page_size == index * page_size + page_size) by (nonlinear_arith);
}

/// Each byte of the buffer lies in exactly one page, the page `k / page_size`:
/// the pages cover the buffer with no gap and no overlap.
pub proof fn lemma_byte_in_exactly_one_page(len: nat, page_size: nat, k: nat, index: nat)
    requires
        page_size > 0,
        k < len,
    ensures
        (page_start(len, page_size, index) <= k < page_end(len, page_size, index)) <==> index == k
            / page_size,
{
    let q = k / page_size;
    assert(q * page_size <= k < (q + 1) * page_size) by (nonlinear_arith)
        requires
            q == k / page_size,
            page_size > 0,
    ;
    if index < q {
        assert((index + 1) * page_size <= q * page_size) by (nonlinear_arith)
            requires
                index + 1 <= q,
        ;
    } else if index > q {
        assert((q + 1) * page_size <= index * page_size) by (nonlinear_arith)
            requires
                q + 1 <= index,
        ;
    }
}

/// The first `count` pages, joined, are the buffer up to the start of page
/// `count`.
pub proof fn lemma_pages_prefix(data: Seq<u8>, page_size: nat, count: nat)
    ensures
        pages(data, page_size, count) == data.subrange(
            0,
            page_start(data.len(), page_size, count) as int,
        ),
    decreases count,
{
    if count == 0 {
        assert(0 * page_size == 0) by (nonlinear_arith);
        assert(pages(data, page_size, count) =~= data.subrange(0, 0));
    } else {
        let before = (count - 1) as nat;
        lemma_pages_prefix(data, page_size, before);
        lemma_page_bounds(data, page_size, before);
        assert(pages(data, page_size, count) =~= data.subrange(
            0,
            page_start(data.len(), page_size, count) as int,
        ));
    }
}

/// Page `page_count` starts at the end of the buffer, and no page before it
/// does (for a buffer that is not empty): `page_count` calls are needed, and
/// enough, to see every byte.
pub proof fn lemma_page_count_covers(len: nat, page_size: nat, count: nat)
    requires
        page_size > 0,
    ensures
        page_start(len, page_size, count) == len <==> count >= page_count(len, page_size),
{
    let q = len / page_size;
    assert(q * page_size <= len < (q + 1) * page_size && len == q * page_size + len % page_size)
        by (nonlinear_arith)
        requires
            q == len / page_size,
            page_size > 0,
    ;
    if count <= q {
        assert(count * page_size <= q * page_size) by (nonlinear_arith)
            requires
                count <= q,
        ;
        if count < q {
            assert((count + 1) * page_size <= q * page_size) by (nonlinear_arith)
                requires
                    count + 1 <= q,
            ;
            assert((count + 1) * page_size == count * page_size + page_size) by (nonlinear_arith);
        }
    } else {
        assert((q + 1) * page_size <= count * page_size) by (nonlinear_arith)
            requires
                q + 1 <= count,
        ;
    }
}

/// Reading `page_count` pages and joining them gives back the buffer, byte
/// for byte; so does reading more.
pub proof fn lemma_pages_reassemble(data: Seq<u8>, page_size: nat, count: nat)
    requires
        page_size > 0,
        count >= page_count(data.len(), page_size),
    ensures
        pages(data, page_size, count) == data,
{
    lemma_pages_prefix(data, page_size, count);
    lemma_page_count_covers(data.len(), page_size, count);
    assert(data.subrange(0, data.len() as int) =~= data);
}

/// With fewer than `page_count` pages some byte of the buffer is missing.
pub proof fn lemma_fewer_pages_fall_short(data: Seq<u8>, page_size: nat, count: nat)
    requires
        page_size > 0,
        count < page_count(data.len(), page_size),
    ensures
        pages(data, page_size, count).len() < data.len(),
{
    lemma_pages_prefix(data, page_size, count);
    lemma_page_count_covers(data.len(), page_size, count);
    lemma_page_start_monotonic(data.len(), page_size, count, count);
}

/// A buffer that fills one page exactly is read with one call; one byte more
/// takes two.
pub proof fn lemma_page_count_at_boundary(page_size: nat)
    requires
        page_size > 0,
    ensures
        page_count(page_size, page_size) == 1,
        page_count(page_size + 1, page_size) == 2,
{
    assert(page_size % page_size == 0 && page_size / page_size == 1) by (nonlinear_arith)
        requires
            page_size > 0,
    ;
    if page_size == 1 {
        assert(2nat % 1 == 0 && 2nat / 1 == 2) by (nonlinear_arith);
    } else {
        assert((page_size + 1) % page_size == 1 && (page_size + 1) / page_size == 1)
            by (nonlinear_arith)
            requires
                page_size > 1,
        ;
    }
}

/// The window of page `index` in a buffer of `len` bytes: where it starts and
/// where it ends.
pub fn page_window(len: usize, page_size: usize, index: usize) -> (window: (usize, usize))
    requires
        page_size > 0,
    ensures
        window.0 == page_start(len as nat, page_size as nat, index as nat),
        window.1 == page_end(len as nat, page_size as nat, index as nat),
{
    let whole = len / page_size;
    proof {
        let q = whole as nat;
        let p = page_size as nat;
        let n = index as nat;
        assert(q * p <= len < (q + 1) * p) by (nonlinear_arith)
            requires
                q == (len as nat) / p,
                p > 0,
        ;
        if n <= q {
            assert(n * p <= q * p) by (nonlinear_arith)
                requires
                    n <= q,
            ;
        } else {
            assert((q + 1) * p <= n * p) by (nonlinear_arith)
                requires
                    q + 1 <= n,
            ;
        }
        assert((n + 1) * p == n * p + p) by (nonlinear_arith);
    }
    if index > whole {
        (len, len)
    } else {
        let start = index * page_size;
        let end = if len - start > page_size {
            start + page_size
        } else {
            len
        };
        (start, end)
    }
}

} // verus!
