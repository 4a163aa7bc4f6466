//! Host physical frames, a bump allocator inside frames, data chunking and
//! the extended page table pointer.
use vstd::prelude::*;

verus! {

/// Largest chunk handed to a data-processing callback: 64 KiB.
pub const MAX_CHUNK_SIZE: usize = 65536;

/// Size of a host physical frame.
pub const FRAME_SIZE: u64 = 4096;

/// `x` rounded up to a multiple of 4096.
pub open spec fn round_up_4k(x: int) -> int {
    ((x + 4095) / 4096) * 4096
}

/// Allocator of 4 KiB host physical frames from one usable range.
pub struct HostMemoryManager {
    next_alloc_ptr: u64,
    current_range_end: u64,
}

impl HostMemoryManager {
    /// The next frame that will be handed out.
    pub closed spec fn next_frame(&self) -> u64 {
        self.next_alloc_ptr
    }

    /// End of the usable range (exclusive).
    pub closed spec fn range_end(&self) -> u64 {
        self.current_range_end
    }

    /// Whether a whole frame is left: the next frame ends within the usable
    /// range.
    pub open spec fn has_frame(&self) -> bool {
        self.next_frame() + 4096 <= self.range_end()
    }

    /// The next frame is page-aligned.
    pub open spec fn wf(&self) -> bool {
        self.next_frame() % 4096 == 0
    }

    /// An empty allocator (no usable range).
    pub fn new() -> (r: HostMemoryManager)
        ensures
            r.wf(),
            r.next_frame() == 0,
            r.range_end() == 0,
    {
        HostMemoryManager { next_alloc_ptr: 0, current_range_end: 0 }
    }

    /// Sets the usable range to `size` bytes from `base`; frames start at
    /// `base` rounded up to a page boundary.
    pub fn init(&mut self, base: u64, size: u64)
        requires
            base + 4095 <= u64::MAX,
            base + size <= u64::MAX,
        ensures
            final(self).wf(),
            final(self).next_frame() == round_up_4k(base as int),
            final(self).range_end() == base + size,
    {
        let x = base + 4095;
        let aligned = x & !4095u64;
        assert(aligned == (x / 4096) * 4096 && aligned % 4096 == 0) by (bit_vector)
            requires
                aligned == x & !4095u64,
        ;
        self.next_alloc_ptr = aligned;
        self.current_range_end = base + size;
    }

    /// Hands out the next frame when it lies wholly inside the usable range,
    /// or 0 (changing nothing) when no whole frame is left.
    pub fn allocate_frame(&mut self) -> (r: u64)
        requires
            old(self).wf(),
        ensures
            final(self).wf(),
            final(self).range_end() == old(self).range_end(),
            old(self).has_frame() ==> {
                &&& r == old(self).next_frame()
                &&& final(self).next_frame() == old(self).next_frame() + 4096
            },
            !old(self).has_frame() ==> {
                &&& r == 0
                &&& *final(self) == *old(self)
            },
    {
        if self.current_range_end >= 4096 && self.next_alloc_ptr <= self.current_range_end - 4096 {
            let addr = self.next_alloc_ptr;
            self.next_alloc_ptr = self.next_alloc_ptr + 4096;
            return addr;
        }
        0
    }
}

/// The in-frame offset at which an allocation aligned to `align` starts,
/// given the current offset.
pub open spec fn aligned_offset(offset: usize, align: usize) -> usize {
    ((offset + (align - 1)) as usize & !((align - 1) as usize)) as usize
}

/// Sub-allocator of exact byte sizes inside 4 KiB host frames.
///
/// Its frontier (see `bump_frontier`) only rises, and each block it hands
/// out lies between the frontier before and after the call, so blocks never
/// overlap (`lemma_bump_blocks_disjoint`).
pub struct BumpAllocator {
    current_frame: u64,
    offset: usize,
}

impl BumpAllocator {
    /// The frame allocations currently come from (0 before the first one).
    pub closed spec fn frame(&self) -> u64 {
        self.current_frame
    }

    /// Bytes of the current frame already handed out.
    pub closed spec fn used(&self) -> usize {
        self.offset
    }

    /// The current frame is page-aligned and no more than a frame is used.
    pub open spec fn wf(&self) -> bool {
        &&& self.frame() % 4096 == 0
        &&& self.used() <= 4096
    }

    /// Whether the arithmetic of `alloc_bytes(size, align)` stays within `usize`:
    /// the alignment is at least one and the aligned end is representable.
    pub open spec fn alloc_in_range(&self, size: usize, align: usize) -> bool {
        (size != 0 && size <= 4096) ==> {
            &&& align >= 1
            &&& self.used() + (align - 1) <= usize::MAX
            &&& aligned_offset(self.used(), align) + size <= usize::MAX
        }
    }

    /// An allocator that takes a fresh frame on its first allocation.
    pub fn new() -> (r: BumpAllocator)
        ensures
            r.wf(),
            r.frame() == 0,
            r.used() == 4096,
    {
        BumpAllocator { current_frame: 0, offset: 4096 }
    }

    /// Allocates `size` bytes aligned to `align` (a power of two) inside the
    /// current frame, or at the start of a fresh frame from `frames` when
    /// they do not fit. Returns 0 for a size of 0 or above 4096, or when no
    /// frame is left (a frame at physical address 0 also reads as none
    /// left).
    pub fn alloc_bytes(&mut self, frames: &mut HostMemoryManager, size: usize, align: usize) -> (r: u64)
        requires
            old(self).wf(),
            old(frames).wf(),
            old(self).alloc_in_range(size, align),
        ensures
            final(self).wf(),
            final(frames).wf(),
            final(frames).range_end() == old(frames).range_end(),
            bump_step(*old(self), *old(frames), *final(self), *final(frames), size, r),
            r != 0 && 1 <= align <= 4096 && align & ((align - 1) as usize) == 0 ==> (r as int) % (align as int)
                == 0,
            size == 0 || size > 4096 ==> r == 0 && *final(self) == *old(self) && *final(frames)
                == *old(frames),
            size != 0 && size <= 4096 ==> {
                let ao = aligned_offset(old(self).used(), align);
                if ao + size > 4096 || old(self).frame() == 0 {
                    if old(frames).has_frame() {
                        &&& final(frames).next_frame() == old(frames).next_frame() + 4096
                        &&& r == old(frames).next_frame()
                        &&& if r == 0 {
                            *final(self) == *old(self)
                        } else {
                            final(self).frame() == r && final(self).used() == size
                        }
                    } else {
                        &&& r == 0
                        &&& *final(self) == *old(self)
                        &&& final(frames).next_frame() == old(frames).next_frame()
                    }
                } else {
                    &&& r == old(self).frame() + ao
                    &&& final(self).frame() == old(self).frame()
                    &&& final(self).used() == ao + size
                    &&& *final(frames) == *old(frames)
                }
            },
    {
        if size == 0 || size > 4096 {
            return 0;
        }
        let align_mask = align - 1;
        let aligned_offset = (self.offset + align_mask) & !align_mask;
        if aligned_offset + size > 4096 || self.current_frame == 0 {
            let new_frame = frames.allocate_frame();
            if new_frame == 0 {
                return 0;
            }
            proof {
                if 1 <= align <= 4096 && align & ((align - 1) as usize) == 0 {
                    assert(0usize & ((align - 1) as usize) == 0) by (bit_vector);
                    lemma_block_aligned(new_frame, 0, align);
                }
            }
            self.current_frame = new_frame;
            self.offset = size;
            self.current_frame
        } else {
            proof {
                lemma_aligned_offset_not_below(self.offset, align);
                lemma_aligned_offset_mask_clear(self.offset, align);
                if 1 <= align <= 4096 && align & ((align - 1) as usize) == 0 {
                    lemma_block_aligned(self.current_frame, aligned_offset, align);
                }
            }
            let allocated_addr = self.current_frame + aligned_offset as u64;
            self.offset = aligned_offset + size;
            allocated_addr
        }
    }
}

/// The end of what the bump allocator has handed out: the used end of its
/// current frame, or 0 before the first frame.
pub open spec fn bump_frontier(b: BumpAllocator) -> int {
    if b.frame() == 0 {
        0
    } else {
        b.frame() + b.used()
    }
}

/// The bump allocator's frame came from `frames` (it lies below the next
/// frame `frames` will hand out), or it has none yet.
pub open spec fn bump_linked(b: BumpAllocator, frames: HostMemoryManager) -> bool {
    b.frame() == 0 || b.frame() + 4096 <= frames.next_frame()
}

/// What one allocation does to the frontier: from a linked state, the state
/// stays linked, the frontier never falls, and a block `[r, r + size)` lies
/// between the old and the new frontier, inside the new current frame.
pub open spec fn bump_step(
    b0: BumpAllocator,
    f0: HostMemoryManager,
    b1: BumpAllocator,
    f1: HostMemoryManager,
    size: usize,
    r: u64,
) -> bool {
    bump_linked(b0, f0) ==> {
        &&& bump_linked(b1, f1)
        &&& bump_frontier(b0) <= bump_frontier(b1)
        &&& r != 0 ==> {
            &&& bump_frontier(b0) <= r
            &&& r + size == bump_frontier(b1)
            &&& b1.frame() <= r
            &&& r + size <= b1.frame() + 4096
        }
    }
}

/// Blocks from a run of bump allocations never overlap. Call `i` goes from
/// the allocator `bs[i]` and frame allocator `fs[i]` to `bs[i + 1]` and
/// `gs[i]` as a `bump_step`; between calls, other users may take frames, so
/// the frame allocator only moves on (`gs[i]` to `fs[i + 1]`). From a linked
/// start, every block ends at or before the start of every later block.
pub proof fn lemma_bump_blocks_disjoint(
    bs: Seq<BumpAllocator>,
    fs: Seq<HostMemoryManager>,
    gs: Seq<HostMemoryManager>,
    sizes: Seq<usize>,
    rs: Seq<u64>,
)
    requires
        sizes.len() == rs.len(),
        gs.len() == rs.len(),
        bs.len() == rs.len() + 1,
        fs.len() == rs.len() + 1,
        bump_linked(bs[0], fs[0]),
        forall|i: int|
            0 <= i < rs.len() ==> #[trigger] bump_step(bs[i], fs[i], bs[i + 1], gs[i], sizes[i], rs[i]),
        forall|i: int| 0 <= i < rs.len() ==> (#[trigger] gs[i]).next_frame() <= fs[i + 1].next_frame(),
    ensures
        forall|i: int, j: int|
            0 <= i < j < rs.len() && rs[i] != 0 && rs[j] != 0 ==> #[trigger] rs[i] + sizes[i]
                <= #[trigger] rs[j],
{
    lemma_bump_history(bs, fs, gs, sizes, rs, rs.len() as int);
    assert forall|i: int, j: int|
        0 <= i < j < rs.len() && rs[i] != 0 && rs[j] != 0 implies #[trigger] rs[i] + sizes[i]
            <= #[trigger] rs[j] by {
        assert(bump_step(bs[i], fs[i], bs[i + 1], gs[i], sizes[i], rs[i]));
        assert(bump_step(bs[j], fs[j], bs[j + 1], gs[j], sizes[j], rs[j]));
        assert(bump_frontier(bs[i + 1]) <= bump_frontier(bs[j]));
    }
}

/// Along such a run, every state up to `n` is linked and the frontier never
/// falls.
proof fn lemma_bump_history(
    bs: Seq<BumpAllocator>,
    fs: Seq<HostMemoryManager>,
    gs: Seq<HostMemoryManager>,
    sizes: Seq<usize>,
    rs: Seq<u64>,
    n: int,
)
    requires
        sizes.len() == rs.len(),
        gs.len() == rs.len(),
        bs.len() == rs.len() + 1,
        fs.len() == rs.len() + 1,
        0 <= n <= rs.len(),
        bump_linked(bs[0], fs[0]),
        forall|i: int|
            0 <= i < rs.len() ==> #[trigger] bump_step(bs[i], fs[i], bs[i + 1], gs[i], sizes[i], rs[i]),
        forall|i: int| 0 <= i < rs.len() ==> (#[trigger] gs[i]).next_frame() <= fs[i + 1].next_frame(),
    ensures
        forall|i: int| 0 <= i <= n ==> #[trigger] bump_linked(bs[i], fs[i]),
        forall|i: int, j: int| 0 <= i <= j <= n ==> bump_frontier(#[trigger] bs[i]) <= bump_frontier(#[trigger] bs[j]),
    decreases n,
{
    if n > 0 {
        lemma_bump_history(bs, fs, gs, sizes, rs, n - 1);
        let k = n - 1;
        assert(bump_linked(bs[k], fs[k]));
        assert(bump_step(bs[k], fs[k], bs[k + 1], gs[k], sizes[k], rs[k]));
        assert(gs[k].next_frame() <= fs[k + 1].next_frame());
        assert forall|i: int, j: int| 0 <= i <= j <= n implies bump_frontier(#[trigger] bs[i])
            <= bump_frontier(#[trigger] bs[j]) by {
            if j == n && i < n {
                assert(bump_frontier(bs[i]) <= bump_frontier(bs[n - 1]));
            }
        }
    }
}

/// For a power-of-two alignment of at most a page, a page-aligned frame plus
/// an offset with the alignment mask's bits clear is aligned.
proof fn lemma_block_aligned(frame: u64, offset: usize, align: usize)
    requires
        1 <= align <= 4096,
        align & ((align - 1) as usize) == 0,
        offset & ((align - 1) as usize) == 0,
        frame % 4096 == 0,
    ensures
        (frame + offset) % (align as int) == 0,
{
    assert(align == 1 || align == 2 || align == 4 || align == 8 || align == 16 || align == 32 || align
        == 64 || align == 128 || align == 256 || align == 512 || align == 1024 || align == 2048 || align
        == 4096) by (bit_vector)
        requires
            1 <= align <= 4096,
            align & ((align - 1) as usize) == 0,
    ;
    let x = offset as u64;
    let m = (align - 1) as u64;
    assert(x & m == 0) by (bit_vector)
        requires
            offset & ((align - 1) as usize) == 0,
            x == offset,
            m == align - 1,
    ;
    assert({
        &&& (x & 1 == 0 ==> x % 2 == 0)
        &&& (x & 3 == 0 ==> x % 4 == 0)
        &&& (x & 7 == 0 ==> x % 8 == 0)
        &&& (x & 15 == 0 ==> x % 16 == 0)
        &&& (x & 31 == 0 ==> x % 32 == 0)
        &&& (x & 63 == 0 ==> x % 64 == 0)
        &&& (x & 127 == 0 ==> x % 128 == 0)
        &&& (x & 255 == 0 ==> x % 256 == 0)
        &&& (x & 511 == 0 ==> x % 512 == 0)
        &&& (x & 1023 == 0 ==> x % 1024 == 0)
        &&& (x & 2047 == 0 ==> x % 2048 == 0)
        &&& (x & 4095 == 0 ==> x % 4096 == 0)
    }) by (bit_vector);
    assert(offset % align == 0);
    let q = (frame as int) / 4096;
    let k = 4096int / (align as int);
    let o = (offset as int) / (align as int);
    assert(4096 == align * k);
    assert(offset as int == align * o);
    assert(frame as int == 4096 * q);
    assert(frame + offset == align * (q * k + o)) by (nonlinear_arith)
        requires
            frame as int == 4096 * q,
            4096 == align * k,
            offset as int == align * o,
    ;
    vstd::arithmetic::div_mod::lemma_mod_multiples_basic(q * k + o, align as int);
}

/// Aligning an offset up never moves it backwards, so bump allocations in
/// one frame never overlap: each starts at or after the end of the previous
/// one.
pub proof fn lemma_aligned_offset_not_below(offset: usize, align: usize)
    requires
        align >= 1,
        offset + (align - 1) <= usize::MAX,
    ensures
        aligned_offset(offset, align) >= offset,
{
    let m = (align - 1) as usize;
    let x = (offset + m) as usize;
    assert((x & !m) >= x - m) by (bit_vector)
        requires
            x >= m,
    ;
}

/// The aligned offset has the alignment mask's bits clear; for a
/// power-of-two alignment this makes it a multiple of the alignment.
pub proof fn lemma_aligned_offset_mask_clear(offset: usize, align: usize)
    requires
        align >= 1,
        offset + (align - 1) <= usize::MAX,
    ensures
        aligned_offset(offset, align) & ((align - 1) as usize) == 0,
{
    let m = (align - 1) as usize;
    let x = (offset + m) as usize;
    assert((x & !m) & m == 0) by (bit_vector);
}

/// The `k`-th chunk of `data`: bytes `k * MAX_CHUNK_SIZE` up to the next
/// multiple of `MAX_CHUNK_SIZE` or the end of the data.
pub open spec fn data_chunk(data: Seq<u8>, k: int) -> Seq<u8> {
    let start = k * MAX_CHUNK_SIZE;
    let end = if start + MAX_CHUNK_SIZE < data.len() { start + MAX_CHUNK_SIZE } else { data.len() as int };
    data.subrange(start, end)
}

/// Whether `f` was called on (a slice holding) the bytes `chunk`.
pub open spec fn handed_chunk<F: FnMut(&[u8])>(f: F, chunk: Seq<u8>) -> bool {
    exists|c: &[u8]| #[trigger] call_ensures(f, (c,), ()) && c@ == chunk
}

/// Calls `process_fn` on consecutive chunks of `data` of at most
/// `MAX_CHUNK_SIZE` bytes, in order: every chunk of the data (all full but
/// the last) is handed to the callback.
pub fn process_data_chunks<F: FnMut(&[u8])>(data: &[u8], process_fn: F)
    requires
        forall|chunk: &[u8]| call_requires(process_fn, (chunk,)),
    ensures
        forall|k: int|
            0 <= k && k * MAX_CHUNK_SIZE < data@.len() ==> handed_chunk(process_fn, #[trigger] data_chunk(data@, k)),
{
    let mut callback = process_fn;
    let mut start: usize = 0;
    let ghost mut n: int = 0;
    while start < data.len()
        invariant
            callback == process_fn,
            forall|chunk: &[u8]| call_requires(process_fn, (chunk,)),
            0 <= n,
            start <= data@.len(),
            start == data@.len() || start == n * MAX_CHUNK_SIZE,
            start < data@.len() ==> start == n * MAX_CHUNK_SIZE,
            start == data@.len() ==> data@.len() <= n * MAX_CHUNK_SIZE,
            forall|k: int| 0 <= k < n ==> handed_chunk(process_fn, #[trigger] data_chunk(data@, k)),
        decreases data.len() - start,
    {
        let end = if data.len() - start > MAX_CHUNK_SIZE {
            start + MAX_CHUNK_SIZE
        } else {
            data.len()
        };
        let chunk = vstd::slice::slice_subrange(data, start, end);
        assert(chunk@ == data_chunk(data@, n));
        callback(chunk);
        assert(call_ensures(process_fn, (chunk,), ()));
        assert(handed_chunk(process_fn, data_chunk(data@, n)));
        start = end;
        proof {
            n = n + 1;
        }
    }
    assert forall|k: int|
        0 <= k && k * MAX_CHUNK_SIZE < data@.len() implies handed_chunk(process_fn, #[trigger] data_chunk(data@, k)) by {
        if k >= n {
            assert(k * MAX_CHUNK_SIZE >= n * MAX_CHUNK_SIZE) by (nonlinear_arith)
                requires
                    k >= n,
            ;
        }
    }
}

/// The host's boot-time memory setup: one 3-byte allocation from the bump
/// allocator, and a pass over a 64-byte sample buffer.
pub fn init_host_memory(bump: &mut BumpAllocator, frames: &mut HostMemoryManager)
    requires
        old(bump).wf(),
        old(frames).wf(),
        old(bump).alloc_in_range(3, 1),
    ensures
        final(bump).wf(),
        final(frames).wf(),
        final(frames).range_end() == old(frames).range_end(),
        ({
            let ao = aligned_offset(old(bump).used(), 1);
            if ao + 3 > 4096 || old(bump).frame() == 0 {
                if old(frames).has_frame() {
                    &&& final(frames).next_frame() == old(frames).next_frame() + 4096
                    &&& if old(frames).next_frame() == 0 {
                        *final(bump) == *old(bump)
                    } else {
                        final(bump).frame() == old(frames).next_frame() && final(bump).used() == 3
                    }
                } else {
                    &&& *final(bump) == *old(bump)
                    &&& final(frames).next_frame() == old(frames).next_frame()
                }
            } else {
                &&& final(bump).frame() == old(bump).frame()
                &&& final(bump).used() == ao + 3
                &&& *final(frames) == *old(frames)
            }
        }),
{
    let _three_byte_addr = bump.alloc_bytes(frames, 3, 1);
    let sample_data = [0u8; 64];
    process_data_chunks(sample_data.as_slice(), |_chunk: &[u8]| {});
}

/// The EPT pointer value for a PML4 table: the table's page address, a
/// 4-level walk (3 in bits 3 to 5) and write-back memory (6 in bits 0 to 2).
pub open spec fn eptp_of(pml4_addr: u64) -> u64 {
    (pml4_addr & !0xFFFu64) | 0x1E
}

/// An extended page table, given by its PML4 table's physical address.
pub struct Ept {
    pub pml4_addr: u64,
}

impl Ept {
    /// The 64-bit EPT pointer for the VMCS.
    pub fn eptp(&self) -> (r: u64)
        ensures
            r == eptp_of(self.pml4_addr),
    {
        let memory_type = 6u64;
        let page_walk_length = 3u64 << 3;
        assert(page_walk_length == 24) by (bit_vector)
            requires
                page_walk_length == 3u64 << 3,
        ;
        let pml4 = self.pml4_addr;
        let r = (pml4 & !0xFFFu64) | page_walk_length | memory_type;
        assert(r == (pml4 & !0xFFFu64) | 0x1E) by (bit_vector)
            requires
                r == (pml4 & !0xFFFu64) | 24u64 | 6u64,
        ;
        r
    }
}

/// The EPT pointer keeps the table's page address and carries the
/// write-back memory type and a 4-level walk in its low bits.
pub proof fn lemma_eptp_fields(pml4_addr: u64)
    ensures
        eptp_of(pml4_addr) & !0xFFFu64 == pml4_addr & !0xFFFu64,
        eptp_of(pml4_addr) & 7 == 6,
        (eptp_of(pml4_addr) >> 3) & 7 == 3,
        eptp_of(pml4_addr) & 0xFC0 == 0,
{
    assert((((pml4_addr & !0xFFFu64) | 0x1E) & !0xFFFu64) == pml4_addr & !0xFFFu64) by (bit_vector);
    assert(((pml4_addr & !0xFFFu64) | 0x1E) & 7 == 6) by (bit_vector);
    assert((((pml4_addr & !0xFFFu64) | 0x1E) >> 3) & 7 == 3) by (bit_vector);
    assert(((pml4_addr & !0xFFFu64) | 0x1E) & 0xFC0 == 0) by (bit_vector);
}

} // verus!
