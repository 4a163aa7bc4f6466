//! Sub-chunk allocation: small objects packed into 8-byte aligned blocks of
//! a 64 KiB chunk.
use vstd::prelude::*;
use super::CHUNK_SIZE;

verus! {

/// `size` rounded up to a multiple of 8.
pub open spec fn align8(size: int) -> int {
    ((size + 7) / 8) * 8
}

/// Packs allocations under 64 KiB into the current chunk, taking a fresh
/// chunk when the current one is missing or full.
pub struct SlabAllocator {
    current_chunk_ptr: usize,
    chunk_offset: usize,
}

impl SlabAllocator {
    /// Base of the current chunk (0 when there is none).
    pub closed spec fn chunk(&self) -> usize {
        self.current_chunk_ptr
    }

    /// Bytes of the current chunk already handed out.
    pub closed spec fn offset(&self) -> usize {
        self.chunk_offset
    }

    /// No more than a chunk is used, in whole 8-byte blocks.
    pub open spec fn wf(&self) -> bool {
        &&& self.offset() <= CHUNK_SIZE
        &&& self.offset() % 8 == 0
    }

    /// Whether an allocation of `size` bytes needs a fresh chunk: the size is
    /// served by this allocator and the current chunk is missing or lacks
    /// room for it.
    pub open spec fn needs_chunk(&self, size: usize) -> bool {
        &&& 0 < size < CHUNK_SIZE
        &&& (self.chunk() == 0 || self.offset() + align8(size as int) > CHUNK_SIZE)
    }

    /// An allocator with no chunk yet.
    pub fn new() -> (r: SlabAllocator)
        ensures
            r.wf(),
            r.chunk() == 0,
            r.offset() == 0,
    {
        SlabAllocator { current_chunk_ptr: 0, chunk_offset: 0 }
    }

    /// Whether `allocate_small(size, ..)` will take a fresh chunk.
    pub fn needs_fresh_chunk(&self, size: usize) -> (r: bool)
        requires
            self.wf(),
        ensures
            r == self.needs_chunk(size),
    {
        if size == 0 || size >= CHUNK_SIZE {
            return false;
        }
        let aligned_size = (size + 7) & !7usize;
        proof {
            lemma_align8(size);
        }
        self.current_chunk_ptr == 0 || self.chunk_offset + aligned_size > CHUNK_SIZE
    }

    /// Allocates `size` bytes (0 < `size` < 64 KiB) at an 8-byte aligned
    /// offset of the current chunk. When the chunk is missing or full,
    /// `fresh_chunk` is what the chunk allocator gave for a new chunk (the
    /// caller asks it only then, see `needs_fresh_chunk`); `None` there means
    /// out of memory.
    pub fn allocate_small(&mut self, size: usize, fresh_chunk: Option<usize>) -> (r: Option<usize>)
        requires
            old(self).wf(),
        ensures
            final(self).wf(),
            small_step(*old(self), *final(self), size, fresh_chunk, r),
            !(0 < size < CHUNK_SIZE) ==> r is None && *final(self) == *old(self),
            old(self).needs_chunk(size) ==> match fresh_chunk {
                None => r is None && *final(self) == *old(self),
                Some(c) => {
                    &&& r == Some(c)
                    &&& final(self).chunk() == c
                    &&& final(self).offset() == align8(size as int)
                },
            },
            0 < size < CHUNK_SIZE && !old(self).needs_chunk(size) ==> if old(self).chunk()
                + old(self).offset() <= usize::MAX {
                &&& r == Some((old(self).chunk() + old(self).offset()) as usize)
                &&& final(self).chunk() == old(self).chunk()
                &&& final(self).offset() == old(self).offset() + align8(size as int)
            } else {
                r is None && *final(self) == *old(self)
            },
    {
        if size == 0 || size >= CHUNK_SIZE {
            return None;
        }
        let aligned_size = size.checked_add(7)? & !7usize;
        proof {
            lemma_align8(size);
        }
        let required_end = self.chunk_offset.checked_add(aligned_size)?;
        if self.current_chunk_ptr == 0 || required_end > CHUNK_SIZE {
            let new_chunk = fresh_chunk?;
            self.current_chunk_ptr = new_chunk;
            self.chunk_offset = 0;
        }
        let allocated_ptr = self.current_chunk_ptr.checked_add(self.chunk_offset)?;
        self.chunk_offset = self.chunk_offset + aligned_size;
        Some(allocated_ptr)
    }
}

/// What one small allocation does: nothing when it fails; otherwise the
/// block `[p, p + size)` ends where the slab's handed-out part of its chunk
/// now ends, and starts either where that part ended before (same chunk) or
/// at the start of the fresh chunk.
pub open spec fn small_step(
    s0: SlabAllocator,
    s1: SlabAllocator,
    size: usize,
    fresh: Option<usize>,
    r: Option<usize>,
) -> bool {
    match r {
        None => s1 == s0,
        Some(p) => {
            &&& 0 < size < CHUNK_SIZE
            &&& p + align8(size as int) == s1.chunk() + s1.offset()
            &&& {
                ||| s1.chunk() == s0.chunk() && s0.chunk() != 0 && p == s0.chunk() + s0.offset()
                ||| fresh == Some(s1.chunk()) && p == s1.chunk()
            }
        },
    }
}

/// Rounding up to 8 by masking equals the arithmetic rounding, and a size
/// under a chunk rounds to at most a chunk.
pub proof fn lemma_align8(size: usize)
    requires
        size < CHUNK_SIZE,
    ensures
        ((size + 7) as usize) & !7usize == align8(size as int),
        align8(size as int) <= CHUNK_SIZE,
        align8(size as int) % 8 == 0,
        align8(size as int) >= size,
{
    let x = (size + 7) as usize;
    assert(x & !7usize == (x / 8) * 8) by (bit_vector);
}

/// Allocations from one chunk never overlap: a block served from the
/// current chunk ends no later than where the next block starts, and within
/// the chunk.
pub proof fn lemma_blocks_disjoint(chunk: usize, offset: usize, size: usize)
    requires
        0 < size < CHUNK_SIZE,
        offset + align8(size as int) <= CHUNK_SIZE,
    ensures
        chunk + offset + size <= chunk + (offset + align8(size as int)),
        offset + align8(size as int) <= CHUNK_SIZE,
{
    lemma_align8(size);
}

} // verus!
