//! Host-resident byte buffers and their paged projection into guest memory.
//!
//! A payload of any length is handed to the guest through a window of fixed
//! size: `first` copies page 0 into the window, each `next` copies the page
//! after the one copied last. A call returns 0 when the page was copied and
//! -1 when it could not be; a call that fails changes nothing.

use crate::constants::{FUNCTION_INPUT_BUFFER_SIZE, IO_BUFFER_SIZE_BYTES};
use crate::paging::{
    lemma_page_count_covers, lemma_pages_reassemble, page, page_count, page_start, page_window,
    pages,
};
use crate::text::copy_range;
use crate::wasm::{patched, WasmMemory};
use std::collections::HashMap;
use vstd::prelude::*;

verus! {

broadcast use vstd::std_specs::hash::group_hash_axioms;

/// How many of `count` bytes addressed from `offset` on lie inside a buffer of
/// `len` bytes.
pub open spec fn clipped(len: nat, offset: nat, count: nat) -> nat {
    if offset >= len {
        0
    } else if count > len - offset {
        (len - offset) as nat
    } else {
        count
    }
}

/// The bytes of `buffer` with `len` bytes from `offset` on set to zero.
pub open spec fn erased(buffer: Seq<u8>, offset: int, len: int) -> Seq<u8> {
    Seq::new(
        buffer.len(),
        |i: int|
            if offset <= i < offset + len {
                0u8
            } else {
                buffer[i]
            },
    )
}

/// What one paging call reports and leaves in guest memory: the page lies at
/// `dst` and the call reports 0 where the page fits into the memory there;
/// else the memory is as before and the call reports -1.
pub open spec fn page_delivered(
    before: Seq<u8>,
    after: Seq<u8>,
    dst: usize,
    page: Seq<u8>,
    code: i32,
) -> bool {
    if dst + page.len() <= before.len() {
        code == 0 && after == patched(before, dst as int, page)
    } else {
        code == -1 && after == before
    }
}

/// The buffers `documents` after `bytes` was appended to the buffer of
/// `ioid`, which starts out empty where `ioid` had none.
pub open spec fn appended(documents: Map<usize, Seq<u8>>, ioid: usize, bytes: Seq<u8>) -> Map<
    usize,
    Seq<u8>,
> {
    documents.insert(
        ioid,
        if documents.contains_key(ioid) {
            documents[ioid] + bytes
        } else {
            bytes
        },
    )
}

/// `Vec::capacity`: how many bytes the vector can hold without allocating
/// again. The number is the allocator's choice; std documents that it is
/// never less than the vector's length.
#[verifier::external_body]
fn vec_capacity(v: &Vec<u8>) -> (n: usize)
    ensures
        n >= v@.len(),
{
    v.capacity()
}

/// Writes `page` into `memory` at `dst` and reports 0, or reports -1.
fn deliver<M: WasmMemory>(memory: &mut M, dst: usize, page: Vec<u8>) -> (code: i32)
    ensures
        page_delivered(old(memory).contents(), final(memory).contents(), dst, page@, code),
{
    match memory.memory_write(dst, page) {
        Ok(_) => 0,
        Err(_) => -1,
    }
}

/// A linear byte buffer.
pub trait LinearBuffer {
    /// The bytes the buffer holds.
    spec fn contents(&self) -> Seq<u8>;

    /// Replaces the contents of the buffer with `buffer`.
    fn initialize(&mut self, buffer: Vec<u8>)
        ensures
            final(self).contents() == buffer@,
    ;

    /// Writes `bytes` over the contents from `at_offset` on and returns how
    /// many bytes were written. The buffer does not grow: bytes that would
    /// fall behind its end are not written.
    fn write(&mut self, bytes: &[u8], at_offset: usize) -> (count: usize)
        ensures
            count == clipped(old(self).contents().len(), at_offset as nat, bytes@.len()),
            final(self).contents() == patched(old(self).contents(), at_offset as int, bytes@),
    ;

    /// Sets `len` bytes from `offset` on to zero, as far as they lie inside
    /// the buffer, and returns how many bytes were set.
    fn erase(&mut self, offset: usize, len: usize) -> (count: usize)
        ensures
            count == clipped(old(self).contents().len(), offset as nat, len as nat),
            final(self).contents() == erased(old(self).contents(), offset as int, len as int),
    ;

    /// The length of the buffer in bytes.
    fn len(&self) -> (n: usize)
        ensures
            n == self.contents().len(),
    ;

    /// The number of bytes the buffer can hold without allocating again.
    fn capacity(&self) -> (n: usize)
        ensures
            n >= self.contents().len(),
    ;
}

/// The marshalled request of one invocation, paged out to the guest through
/// the function input window.
pub struct FunctionInputBuffer {
    buffer: Vec<u8>,
    page_idx: usize,
}

impl FunctionInputBuffer {
    /// The index of the page that was copied to the guest last.
    pub closed spec fn page_index(&self) -> nat {
        self.page_idx as nat
    }

    /// Whether `self` is what `before` becomes by a paging call that turns
    /// to page `index` and reports `code`: the page lies in guest memory at
    /// `dst` and is the page under the cursor, or nothing has changed.
    pub open spec fn turned_to(
        &self,
        before: &Self,
        index: nat,
        memory_before: Seq<u8>,
        memory_after: Seq<u8>,
        dst: usize,
        code: i32,
    ) -> bool {
        &&& self.contents() == before.contents()
        &&& page_delivered(
            memory_before,
            memory_after,
            dst,
            page(before.contents(), FUNCTION_INPUT_BUFFER_SIZE as nat, index),
            code,
        )
        &&& self.page_index() == if code == 0 {
            index
        } else {
            before.page_index()
        }
    }

    /// An empty buffer with its cursor on page 0.
    pub fn new() -> (buffer: Self)
        ensures
            buffer.contents() == Seq::<u8>::empty(),
            buffer.page_index() == 0,
    {
        Self { buffer: Vec::new(), page_idx: 0usize }
    }

    /// Copies page 0 into `memory` at `dst` and sets the cursor to page 0.
    pub fn first<M: WasmMemory>(&mut self, memory: &mut M, dst: usize) -> (code: i32)
        ensures
            final(self).turned_to(
                old(self),
                0,
                old(memory).contents(),
                final(memory).contents(),
                dst,
                code,
            ),
    {
        let (start, end) = page_window(self.buffer.len(), FUNCTION_INPUT_BUFFER_SIZE, 0);
        let code = deliver(memory, dst, copy_range(self.buffer.as_slice(), start, end));
        if code == 0 {
            self.page_idx = 0usize;
        }
        code
    }

    /// Moves the cursor on by one page and copies that page into `memory` at
    /// `dst`. A page behind the end of the buffer is empty.
    pub fn next<M: WasmMemory>(&mut self, memory: &mut M, dst: usize) -> (code: i32)
        ensures
            if old(self).page_index() < usize::MAX {
                final(self).turned_to(
                    old(self),
                    old(self).page_index() + 1,
                    old(memory).contents(),
                    final(memory).contents(),
                    dst,
                    code,
                )
            } else {
                code == -1 && *final(self) == *old(self) && final(memory).contents() == old(
                    memory,
                ).contents()
            },
    {
        if self.page_idx == usize::MAX {
            return -1;
        }
        let index = self.page_idx + 1;
        let (start, end) = page_window(self.buffer.len(), FUNCTION_INPUT_BUFFER_SIZE, index);
        let code = deliver(memory, dst, copy_range(self.buffer.as_slice(), start, end));
        if code == 0 {
            self.page_idx = index;
        }
        code
    }

    /// Copies the bytes `src.0 .. src.1` of the buffer into `memory` at
    /// `dst.0`. Fails, and copies nothing, where the source range does not lie
    /// inside the buffer or the bytes do not fit into the memory.
    pub fn copy_to_wasm<M: WasmMemory>(
        &self,
        memory: &mut M,
        src: (usize, usize),
        dst: (usize, usize),
    ) -> (r: Result<(), ()>)
        ensures
            r is Ok <==> src.0 <= src.1 <= self.contents().len() && dst.0 + (src.1 - src.0) <= old(
                memory,
            ).contents().len(),
            r is Ok ==> final(memory).contents() == patched(
                old(memory).contents(),
                dst.0 as int,
                self.contents().subrange(src.0 as int, src.1 as int),
            ),
            r is Err ==> final(memory).contents() == old(memory).contents(),
    {
        if src.0 > src.1 || src.1 > self.buffer.len() {
            return Err(());
        }
        if deliver(memory, dst.0, copy_range(self.buffer.as_slice(), src.0, src.1)) == 0 {
            Ok(())
        } else {
            Err(())
        }
    }
}

impl LinearBuffer for FunctionInputBuffer {
    closed spec fn contents(&self) -> Seq<u8> {
        self.buffer@
    }

    fn initialize(&mut self, buffer: Vec<u8>)
        ensures
            final(self).page_index() == old(self).page_index(),
    {
        self.buffer = buffer;
    }

    fn write(&mut self, bytes: &[u8], at_offset: usize) -> (count: usize)
        ensures
            final(self).page_index() == old(self).page_index(),
    {
        let len = self.buffer.len();
        if at_offset >= len {
            assert(self.buffer@ =~= patched(self.buffer@, at_offset as int, bytes@));
            return 0;
        }
        let count = if bytes.len() > len - at_offset {
            len - at_offset
        } else {
            bytes.len()
        };
        let mut bytes_written = 0usize;
        while bytes_written < count
            invariant
                bytes_written <= count <= bytes@.len(),
                at_offset + count <= len,
                len == self.buffer@.len(),
                len == old(self).buffer@.len(),
                self.page_idx == old(self).page_idx,
                self.buffer@ == patched(
                    old(self).buffer@,
                    at_offset as int,
                    bytes@.subrange(0, bytes_written as int),
                ),
            decreases count - bytes_written,
        {
            self.buffer.set(at_offset + bytes_written, bytes[bytes_written]);
            bytes_written += 1;
        }
        assert(self.buffer@ =~= patched(old(self).buffer@, at_offset as int, bytes@));
        bytes_written
    }

    fn erase(&mut self, offset: usize, len: usize) -> (count: usize)
        ensures
            final(self).page_index() == old(self).page_index(),
    {
        let size = self.buffer.len();
        if offset >= size {
            assert(self.buffer@ =~= erased(self.buffer@, offset as int, len as int));
            return 0;
        }
        let count = if len > size - offset {
            size - offset
        } else {
            len
        };
        let mut bytes_erased = 0usize;
        while bytes_erased < count
            invariant
                bytes_erased <= count <= len,
                offset + count <= size,
                size == self.buffer@.len(),
                size == old(self).buffer@.len(),
                self.page_idx == old(self).page_idx,
                self.buffer@ == erased(old(self).buffer@, offset as int, bytes_erased as int),
            decreases count - bytes_erased,
        {
            self.buffer.set(offset + bytes_erased, 0u8);
            bytes_erased += 1;
        }
        assert(self.buffer@ =~= erased(old(self).buffer@, offset as int, len as int));
        bytes_erased
    }

    fn len(&self) -> (n: usize) {
        self.buffer.len()
    }

    fn capacity(&self) -> (n: usize) {
        vec_capacity(&self.buffer)
    }
}

/// The pages of the function input, read from page 0 up to the last page
/// that holds a byte and joined, are the input that was written, byte for
/// byte.
pub proof fn lemma_paged_input_is_the_input(input: Seq<u8>)
    ensures
        pages(
            input,
            FUNCTION_INPUT_BUFFER_SIZE as nat,
            page_count(input.len(), FUNCTION_INPUT_BUFFER_SIZE as nat),
        ) == input,
{
    lemma_pages_reassemble(
        input,
        FUNCTION_INPUT_BUFFER_SIZE as nat,
        page_count(input.len(), FUNCTION_INPUT_BUFFER_SIZE as nat),
    );
}

/// The pages of a response of `L` bytes, read from page 0 on and joined,
/// are the response once `L / IO_BUFFER_SIZE_BYTES`, rounded up, pages were
/// read. A response of exactly one page takes one call, a response of one
/// page and a byte takes two.
pub proof fn lemma_paged_response_is_the_response(response: Seq<u8>)
    ensures
        pages(
            response,
            IO_BUFFER_SIZE_BYTES as nat,
            page_count(response.len(), IO_BUFFER_SIZE_BYTES as nat),
        ) == response,
        response.len() == IO_BUFFER_SIZE_BYTES ==> page_count(
            response.len(),
            IO_BUFFER_SIZE_BYTES as nat,
        ) == 1,
        response.len() == IO_BUFFER_SIZE_BYTES + 1 ==> page_count(
            response.len(),
            IO_BUFFER_SIZE_BYTES as nat,
        ) == 2,
{
    lemma_pages_reassemble(
        response,
        IO_BUFFER_SIZE_BYTES as nat,
        page_count(response.len(), IO_BUFFER_SIZE_BYTES as nat),
    );
    crate::paging::lemma_page_count_at_boundary(IO_BUFFER_SIZE_BYTES as nat);
}

/// The responses to the I/O calls of one instance, one linear buffer for each
/// I/O identifier, each with a page cursor of its own.
///
/// `first` selects the buffer that the following `next` calls page through:
/// the buffer selected last is the active one.
pub struct IoBuffer {
    active_buffer: usize,
    buffers: HashMap<usize, Vec<u8>>,
    page_indices: HashMap<usize, usize>,
}

impl IoBuffer {
    /// The bytes held for each I/O identifier that has a buffer.
    pub closed spec fn documents(&self) -> Map<usize, Seq<u8>> {
        Map::new(|ioid: usize| self.buffers@.contains_key(ioid), |ioid: usize| self.buffers@[ioid]@)
    }

    /// The index of the page copied last, for each buffer that has a cursor.
    pub closed spec fn cursors(&self) -> Map<usize, usize> {
        self.page_indices@
    }

    /// The identifier of the buffer that `next` pages through.
    pub closed spec fn active(&self) -> usize {
        self.active_buffer
    }

    /// Whether the guest has been handed every byte held for `ioid`: the
    /// buffer has a cursor, and the page under it ends where the buffer ends.
    pub open spec fn drained(&self, ioid: usize) -> bool {
        &&& self.documents().contains_key(ioid)
        &&& self.cursors().contains_key(ioid)
        &&& page_start(
            self.documents()[ioid].len(),
            IO_BUFFER_SIZE_BYTES as nat,
            self.cursors()[ioid] as nat + 1,
        ) == self.documents()[ioid].len()
    }

    /// Whether `self` is what `before` becomes by a paging call that turns
    /// the buffer of `ioid` to page `index` and reports `code`: the page lies
    /// in guest memory at `dst`, `ioid` is the active buffer and `index` its
    /// cursor, or nothing has changed.
    pub open spec fn turned_to(
        &self,
        before: &Self,
        ioid: usize,
        index: nat,
        memory_before: Seq<u8>,
        memory_after: Seq<u8>,
        dst: usize,
        code: i32,
    ) -> bool {
        &&& self.documents() == before.documents()
        &&& page_delivered(
            memory_before,
            memory_after,
            dst,
            page(before.documents()[ioid], IO_BUFFER_SIZE_BYTES as nat, index),
            code,
        )
        &&& self.active() == if code == 0 {
            ioid
        } else {
            before.active()
        }
        &&& self.cursors() == if code == 0 {
            before.cursors().insert(ioid, index as usize)
        } else {
            before.cursors()
        }
    }

    /// A response is drained when its cursor stands on the last page that
    /// holds a byte, or behind it: when as many pages were handed over as the
    /// response has.
    pub proof fn lemma_drained_after_page_count(&self, ioid: usize)
        requires
            self.documents().contains_key(ioid),
            self.cursors().contains_key(ioid),
        ensures
            self.drained(ioid) <==> self.cursors()[ioid] + 1 >= page_count(
                self.documents()[ioid].len(),
                IO_BUFFER_SIZE_BYTES as nat,
            ),
    {
        lemma_page_count_covers(
            self.documents()[ioid].len(),
            IO_BUFFER_SIZE_BYTES as nat,
            self.cursors()[ioid] as nat + 1,
        );
    }

    /// No buffers; buffer 0 is the active one.
    pub fn new() -> (buffer: Self)
        ensures
            buffer.documents() == Map::<usize, Seq<u8>>::empty(),
            buffer.cursors() == Map::<usize, usize>::empty(),
            buffer.active() == 0,
    {
        let buffer = Self {
            active_buffer: 0usize,
            buffers: HashMap::new(),
            page_indices: HashMap::new(),
        };
        assert(buffer.documents() =~= Map::<usize, Seq<u8>>::empty());
        buffer
    }

    /// The number of bytes held for `ioid`; 0 where `ioid` has no buffer.
    pub fn len(&self, ioid: usize) -> (n: usize)
        ensures
            n == if self.documents().contains_key(ioid) {
                self.documents()[ioid].len()
            } else {
                0
            },
    {
        match self.buffers.get(&ioid) {
            Some(buffer) => buffer.len(),
            None => 0,
        }
    }

    /// Empty buffers for the identifiers `0 .. num_buffers`, each with room
    /// for `buffer_capacity` bytes and its cursor on page 0.
    pub fn with_capacity(num_buffers: usize, buffer_capacity: usize) -> (buffer: Self)
        ensures
            buffer.documents() == Map::new(
                |ioid: usize| ioid < num_buffers,
                |ioid: usize| Seq::<u8>::empty(),
            ),
            buffer.cursors() == Map::new(|ioid: usize| ioid < num_buffers, |ioid: usize| 0usize),
            buffer.active() == 0,
    {
        let mut buffers: HashMap<usize, Vec<u8>> = HashMap::new();
        let mut indices: HashMap<usize, usize> = HashMap::new();
        let mut idx: usize = 0;
        while idx < num_buffers
            invariant
                idx <= num_buffers,
                buffers@.dom() == Set::new(|ioid: usize| ioid < idx),
                forall|ioid: usize| ioid < idx ==> (#[trigger] buffers@[ioid])@ == Seq::<u8>::empty(),
                indices@ == Map::new(|ioid: usize| ioid < idx, |ioid: usize| 0usize),
            decreases num_buffers - idx,
        {
            buffers.insert(idx, Vec::with_capacity(buffer_capacity));
            indices.insert(idx, 0);
            idx += 1;
            assert(buffers@.dom() =~= Set::new(|ioid: usize| ioid < idx));
            assert(indices@ =~= Map::new(|ioid: usize| ioid < idx, |ioid: usize| 0usize));
        }
        let buffer = Self { active_buffer: 0usize, buffers, page_indices: indices };
        assert(buffer.documents() =~= Map::new(
            |ioid: usize| ioid < num_buffers,
            |ioid: usize| Seq::<u8>::empty(),
        ));
        buffer
    }

    /// Appends `bytes` to the buffer of `ioid`, which is created empty where
    /// `ioid` had none, and returns how many bytes were appended.
    pub fn write(&mut self, ioid: usize, bytes: &[u8]) -> (count: usize)
        ensures
            count == bytes@.len(),
            final(self).documents() == appended(old(self).documents(), ioid, bytes@),
            final(self).cursors() == old(self).cursors(),
            final(self).active() == old(self).active(),
    {
        let mut buffer = match self.buffers.remove(&ioid) {
            Some(buffer) => buffer,
            None => Vec::new(),
        };
        let ghost before = buffer@;
        let mut bytes_written = 0usize;
        while bytes_written < bytes.len()
            invariant
                bytes_written <= bytes@.len(),
                buffer@ == before + bytes@.subrange(0, bytes_written as int),
            decreases bytes@.len() - bytes_written,
        {
            buffer.push(bytes[bytes_written]);
            bytes_written += 1;
        }
        assert(bytes@.subrange(0, bytes_written as int) == bytes@);
        self.buffers.insert(ioid, buffer);
        assert(final(self).documents() =~= appended(old(self).documents(), ioid, bytes@));
        bytes_written
    }

    /// Whether `ioid` has a buffer.
    pub fn has(&self, ioid: usize) -> (b: bool)
        ensures
            b == self.documents().contains_key(ioid),
    {
        self.buffers.get(&ioid).is_some()
    }

    /// Whether `next` has a page to turn to.
    pub fn can_page(&self) -> (b: bool)
        ensures
            b == self.pageable(),
    {
        match self.page_indices.get(&self.active_buffer) {
            Some(cursor) => *cursor < usize::MAX && self.buffers.get(&self.active_buffer).is_some(),
            None => false,
        }
    }

    /// Whether the guest has been handed every byte held for `ioid`.
    pub fn is_drained(&self, ioid: usize) -> (b: bool)
        ensures
            b == self.drained(ioid),
    {
        match self.buffers.get(&ioid) {
            Some(buffer) => match self.page_indices.get(&ioid) {
                Some(cursor) => {
                    if *cursor == usize::MAX {
                        let len = buffer.len();
                        assert((*cursor as nat + 1) * (IO_BUFFER_SIZE_BYTES as nat) >= len)
                            by (nonlinear_arith)
                            requires
                                *cursor as nat + 1 > len,
                                IO_BUFFER_SIZE_BYTES as nat >= 1,
                        ;
                        true
                    } else {
                        let (start, _end) = page_window(
                            buffer.len(),
                            IO_BUFFER_SIZE_BYTES,
                            *cursor + 1,
                        );
                        start == buffer.len()
                    }
                },
                None => false,
            },
            None => false,
        }
    }

    /// Makes `ioid` the active buffer, sets its cursor to page 0 and copies
    /// page 0 into `memory` at `dst`. Fails where `ioid` has no buffer.
    pub fn first<M: WasmMemory>(&mut self, memory: &mut M, ioid: usize, dst: usize) -> (code: i32)
        ensures
            old(self).documents().contains_key(ioid) ==> final(self).turned_to(
                old(self),
                ioid,
                0,
                old(memory).contents(),
                final(memory).contents(),
                dst,
                code,
            ),
            !old(self).documents().contains_key(ioid) ==> code == -1 && *final(self) == *old(self)
                && final(memory).contents() == old(memory).contents(),
    {
        let page = match self.buffers.get(&ioid) {
            Some(buffer) => {
                let (start, end) = page_window(buffer.len(), IO_BUFFER_SIZE_BYTES, 0);
                copy_range(buffer.as_slice(), start, end)
            },
            None => {
                return -1;
            },
        };
        let code = deliver(memory, dst, page);
        if code == 0 {
            self.active_buffer = ioid;
            self.page_indices.insert(ioid, 0usize);
        }
        code
    }

    /// Moves the cursor of the active buffer on by one page and copies that
    /// page into `memory` at `dst`. A page behind the end of the buffer is
    /// empty. Fails where the active buffer does not exist or has no cursor.
    pub fn next<M: WasmMemory>(&mut self, memory: &mut M, dst: usize) -> (code: i32)
        ensures
            old(self).pageable() ==> final(self).turned_to(
                old(self),
                old(self).active(),
                old(self).cursors()[old(self).active()] as nat + 1,
                old(memory).contents(),
                final(memory).contents(),
                dst,
                code,
            ),
            !old(self).pageable() ==> code == -1 && *final(self) == *old(self) && final(memory).contents() == old(memory).contents(),
    {
        let active = self.active_buffer;
        let index = match self.page_indices.get(&active) {
            Some(cursor) => {
                if *cursor == usize::MAX {
                    return -1;
                }
                *cursor + 1
            },
            None => {
                return -1;
            },
        };
        let page = match self.buffers.get(&active) {
            Some(buffer) => {
                let (start, end) = page_window(buffer.len(), IO_BUFFER_SIZE_BYTES, index);
                copy_range(buffer.as_slice(), start, end)
            },
            None => {
                return -1;
            },
        };
        let code = deliver(memory, dst, page);
        if code == 0 {
            self.page_indices.insert(active, index);
        }
        code
    }

    /// Whether `next` has a page to turn to: the active buffer exists and has
    /// a cursor that can still advance.
    pub open spec fn pageable(&self) -> bool {
        &&& self.documents().contains_key(self.active())
        &&& self.cursors().contains_key(self.active())
        &&& self.cursors()[self.active()] < usize::MAX
    }

    /// Copies up to one page of the buffer of `src.0`, from the byte offset
    /// `src.1` on, into `memory` at `dst.0`. An offset behind the end of the
    /// buffer gives an empty copy. Fails, and copies nothing, where `src.0`
    /// has no buffer or the bytes do not fit into the memory.
    pub fn copy_to_wasm<M: WasmMemory>(
        &self,
        memory: &mut M,
        src: (usize, usize),
        dst: (usize, usize),
    ) -> (r: Result<(), ()>)
        ensures
            r is Ok <==> self.documents().contains_key(src.0) && dst.0 + window(
                self.documents()[src.0],
                src.1 as nat,
                IO_BUFFER_SIZE_BYTES as nat,
            ).len() <= old(memory).contents().len(),
            r is Ok ==> final(memory).contents() == patched(
                old(memory).contents(),
                dst.0 as int,
                window(self.documents()[src.0], src.1 as nat, IO_BUFFER_SIZE_BYTES as nat),
            ),
            r is Err ==> final(memory).contents() == old(memory).contents(),
    {
        let bytes = match self.buffers.get(&src.0) {
            Some(buffer) => {
                let len = buffer.len();
                let start = if src.1 > len {
                    len
                } else {
                    src.1
                };
                let end = if len - start > IO_BUFFER_SIZE_BYTES {
                    start + IO_BUFFER_SIZE_BYTES
                } else {
                    len
                };
                copy_range(buffer.as_slice(), start, end)
            },
            None => {
                return Err(());
            },
        };
        if deliver(memory, dst.0, bytes) == 0 {
            Ok(())
        } else {
            Err(())
        }
    }
}

/// Up to `size` bytes of `data` from the byte offset `offset` on; nothing
/// where `offset` lies behind the end.
pub open spec fn window(data: Seq<u8>, offset: nat, size: nat) -> Seq<u8> {
    let start: int = if offset > data.len() {
        data.len() as int
    } else {
        offset as int
    };
    let end: int = if data.len() - start > size {
        start + size
    } else {
        data.len() as int
    };
    data.subrange(start, end)
}

} // verus!
