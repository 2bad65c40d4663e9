//! Guest linear memory as the host sees it.

use vstd::prelude::*;

verus! {

/// Why an access to guest memory was refused.
#[derive(Clone, Copy, Debug, PartialEq, Eq, Structural)]
pub enum MemoryError {
    /// The addressed range does not lie inside the memory.
    InvalidMemoryAccess,
}

/// The bytes of `memory` after `bytes` has been written over them from
/// `offset` on. The length never changes: what would fall behind the last
/// byte of `memory` is not written.
pub open spec fn patched(memory: Seq<u8>, offset: int, bytes: Seq<u8>) -> Seq<u8> {
    Seq::new(
        memory.len(),
        |i: int|
            if offset <= i < offset + bytes.len() {
                bytes[i - offset]
            } else {
                memory[i]
            },
    )
}

/// What was written into a memory can be read back from where it was
/// written, and every byte outside the written range is as it was.
pub proof fn lemma_patched_reads_back(memory: Seq<u8>, offset: int, bytes: Seq<u8>)
    requires
        0 <= offset,
        offset + bytes.len() <= memory.len(),
    ensures
        patched(memory, offset, bytes).len() == memory.len(),
        patched(memory, offset, bytes).subrange(offset, offset + bytes.len()) == bytes,
        patched(memory, offset, bytes).subrange(0, offset) == memory.subrange(0, offset),
        patched(memory, offset, bytes).subrange(offset + bytes.len(), memory.len() as int)
            == memory.subrange(offset + bytes.len(), memory.len() as int),
{
    let after = patched(memory, offset, bytes);
    assert(after.subrange(offset, offset + bytes.len()) =~= bytes);
    assert(after.subrange(0, offset) =~= memory.subrange(0, offset));
    assert(after.subrange(offset + bytes.len(), memory.len() as int) =~= memory.subrange(
        offset + bytes.len(),
        memory.len() as int,
    ));
}

/// Byte-addressed access to the memory of one guest instance.
///
/// All host code reads and writes guest memory through this interface. An
/// access succeeds exactly when the whole addressed range lies inside the
/// memory; a refused write leaves the memory as it was.
pub trait WasmMemory {
    /// The bytes the memory holds.
    spec fn contents(&self) -> Seq<u8>;

    /// Copies `length` bytes out of the memory, starting at `offset`.
    fn memory_read(&self, offset: usize, length: usize) -> (r: Result<Vec<u8>, MemoryError>)
        ensures
            r is Ok <==> offset + length <= self.contents().len(),
            r matches Ok(bytes) ==> bytes@ == self.contents().subrange(
                offset as int,
                offset + length,
            ),
    ;

    /// Copies `bytes` into the memory, starting at `offset`, and returns how
    /// many bytes were written.
    fn memory_write(&mut self, offset: usize, bytes: Vec<u8>) -> (r: Result<usize, MemoryError>)
        ensures
            r is Ok <==> offset + bytes@.len() <= old(self).contents().len(),
            r matches Ok(count) ==> count == bytes@.len() && final(self).contents() == patched(
                old(self).contents(),
                offset as int,
                bytes@,
            ),
            r is Err ==> final(self).contents() == old(self).contents(),
    ;
}

/// A guest memory held as a plain vector of bytes.
pub struct LinearMemory {
    bytes: Vec<u8>,
}

impl View for LinearMemory {
    type V = Seq<u8>;

    closed spec fn view(&self) -> Seq<u8> {
        self.bytes@
    }
}

impl LinearMemory {
    /// A memory of `size` zero bytes.
    pub fn new(size: usize) -> (memory: Self)
        ensures
            memory@ == Seq::new(size as nat, |i: int| 0u8),
    {
        let mut bytes: Vec<u8> = Vec::new();
        let mut i: usize = 0;
        while i < size
            invariant
                i <= size,
                bytes@ == Seq::new(i as nat, |k: int| 0u8),
            decreases size - i,
        {
            bytes.push(0u8);
            i += 1;
        }
        LinearMemory { bytes }
    }

    /// A memory that holds exactly `bytes`.
    pub fn from_bytes(bytes: Vec<u8>) -> (memory: Self)
        ensures
            memory@ == bytes@,
    {
        LinearMemory { bytes }
    }

    /// The size of the memory in bytes.
    pub fn size(&self) -> (n: usize)
        ensures
            n == self@.len(),
    {
        self.bytes.len()
    }

    /// The bytes of the memory.
    pub fn as_bytes(&self) -> (bytes: &Vec<u8>)
        ensures
            bytes@ == self@,
    {
        &self.bytes
    }
}

impl WasmMemory for LinearMemory {
    open spec fn contents(&self) -> Seq<u8> {
        self@
    }

    fn memory_read(&self, offset: usize, length: usize) -> (r: Result<Vec<u8>, MemoryError>) {
        let size = self.bytes.len();
        if offset > size || length > size - offset {
            return Err(MemoryError::InvalidMemoryAccess);
        }
        let mut out: Vec<u8> = Vec::new();
        let mut i: usize = 0;
        while i < length
            invariant
                i <= length,
                size == self.bytes@.len(),
                offset + length <= size,
                out@ == self.bytes@.subrange(offset as int, offset + i),
            decreases length - i,
        {
            out.push(self.bytes[offset + i]);
            i += 1;
        }
        Ok(out)
    }

    fn memory_write(&mut self, offset: usize, bytes: Vec<u8>) -> (r: Result<usize, MemoryError>) {
        let size = self.bytes.len();
        let count = bytes.len();
        if offset > size || count > size - offset {
            return Err(MemoryError::InvalidMemoryAccess);
        }
        let mut i: usize = 0;
        while i < count
            invariant
                i <= count,
                count == bytes@.len(),
                offset + count <= size,
                size == self.bytes@.len(),
                size == old(self).bytes@.len(),
                self.bytes@ == patched(
                    old(self).bytes@,
                    offset as int,
                    bytes@.subrange(0, i as int),
                ),
            decreases count - i,
        {
            self.bytes.set(offset + i, bytes[i]);
            i += 1;
        }
        assert(bytes@.subrange(0, count as int) == bytes@);
        Ok(count)
    }
}

} // verus!
