//! Memory allocation routing and the lock state of task memory regions.
use vstd::prelude::*;

pub mod state;

use crate::security::memory::CHUNK_SIZE;
use crate::security::memory::slab::{align8, lemma_align8, small_step, SlabAllocator};

verus! {

/// What one `allocate` call does: a request of a chunk or more returns the
/// chunk allocator's block and leaves the slab alone; a smaller one is a
/// slab step.
pub open spec fn alloc_step(
    s0: SlabAllocator,
    s1: SlabAllocator,
    size: usize,
    fresh: Option<usize>,
    large: Option<usize>,
    r: Option<usize>,
) -> bool {
    if size >= CHUNK_SIZE {
        s1 == s0 && r == large
    } else {
        small_step(s0, s1, size, fresh, r)
    }
}

/// Whether two address ranges `[a, a + a_len)` and `[b, b + b_len)` share
/// no byte.
pub open spec fn disjoint(a: int, a_len: int, b: int, b_len: int) -> bool {
    a_len <= 0 || b_len <= 0 || a + a_len <= b || b + b_len <= a
}

/// Start of the part of the slab's current chunk not yet handed out.
pub open spec fn tail_start(s: SlabAllocator) -> int {
    s.chunk() + s.offset()
}

/// Length of the part of the slab's current chunk not yet handed out (none
/// without a chunk).
pub open spec fn tail_len(s: SlabAllocator) -> int {
    if s.chunk() == 0 {
        0
    } else {
        CHUNK_SIZE - s.offset()
    }
}

/// The block that call `i` of a run handed out, `[rs[i], rs[i] + sizes[i])`,
/// is disjoint from `[b, b + b_len)` (or the call handed out nothing).
pub open spec fn block_avoids(rs: Seq<Option<usize>>, sizes: Seq<usize>, i: int, b: int, b_len: int) -> bool {
    rs[i] matches Some(p) ==> disjoint(p as int, sizes[i] as int, b, b_len)
}

/// The chunk allocator's side of a run of `allocate` calls: each fresh chunk
/// offered and each large block handed out is memory not handed out before
/// (disjoint from every earlier block), and a large block also lies outside
/// the slab's current chunk.
pub open spec fn chunks_fresh(
    ss: Seq<SlabAllocator>,
    sizes: Seq<usize>,
    freshes: Seq<Option<usize>>,
    rs: Seq<Option<usize>>,
) -> bool {
    &&& forall|i: int, k: int|
        0 <= k < i < rs.len() && #[trigger] freshes[i] is Some ==> #[trigger] block_avoids(
            rs,
            sizes,
            k,
            freshes[i]->0 as int,
            CHUNK_SIZE as int,
        )
    &&& forall|i: int|
        0 <= i < rs.len() && sizes[i] >= CHUNK_SIZE && #[trigger] rs[i] is Some ==> {
            &&& forall|k: int|
                0 <= k < i ==> #[trigger] block_avoids(rs, sizes, k, rs[i]->0 as int, sizes[i] as int)
            &&& disjoint(rs[i]->0 as int, sizes[i] as int, ss[i].chunk() as int, CHUNK_SIZE as int)
        }
}

/// Blocks from a run of allocations never overlap: along states `ss` where
/// call `i` is an `alloc_step` with request `sizes[i]`, fresh chunk
/// `freshes[i]`, large block `larges[i]` and result `rs[i]`, and where the
/// chunk allocator only hands out memory not handed out before, any two
/// blocks handed out are disjoint. Calls under a chunk are exactly the slab
/// allocator's `allocate_small` steps, so this covers its blocks too.
pub proof fn lemma_allocations_disjoint(
    ss: Seq<SlabAllocator>,
    sizes: Seq<usize>,
    freshes: Seq<Option<usize>>,
    larges: Seq<Option<usize>>,
    rs: Seq<Option<usize>>,
)
    requires
        sizes.len() == rs.len(),
        freshes.len() == rs.len(),
        larges.len() == rs.len(),
        ss.len() == rs.len() + 1,
        forall|i: int| 0 <= i <= rs.len() ==> (#[trigger] ss[i]).wf(),
        forall|i: int|
            0 <= i < rs.len() ==> #[trigger] alloc_step(ss[i], ss[i + 1], sizes[i], freshes[i], larges[i], rs[i]),
        chunks_fresh(ss, sizes, freshes, rs),
    ensures
        forall|k: int, l: int|
            0 <= k < l < rs.len() && #[trigger] rs[k] is Some && #[trigger] rs[l] is Some ==> disjoint(
                rs[k]->0 as int,
                sizes[k] as int,
                rs[l]->0 as int,
                sizes[l] as int,
            ),
{
    lemma_allocations_prefix(ss, sizes, freshes, larges, rs, rs.len() as int);
    assert forall|k: int, l: int|
        0 <= k < l < rs.len() && #[trigger] rs[k] is Some && #[trigger] rs[l] is Some implies disjoint(
            rs[k]->0 as int,
            sizes[k] as int,
            rs[l]->0 as int,
            sizes[l] as int,
        ) by {
        assert(block_avoids(rs, sizes, k, rs[l]->0 as int, sizes[l] as int));
    }
}

/// The run's first `n` blocks are pairwise disjoint and avoid the unused
/// part of the slab's chunk after call `n`.
proof fn lemma_allocations_prefix(
    ss: Seq<SlabAllocator>,
    sizes: Seq<usize>,
    freshes: Seq<Option<usize>>,
    larges: Seq<Option<usize>>,
    rs: Seq<Option<usize>>,
    n: int,
)
    requires
        sizes.len() == rs.len(),
        freshes.len() == rs.len(),
        larges.len() == rs.len(),
        ss.len() == rs.len() + 1,
        0 <= n <= rs.len(),
        forall|i: int| 0 <= i <= rs.len() ==> (#[trigger] ss[i]).wf(),
        forall|i: int|
            0 <= i < rs.len() ==> #[trigger] alloc_step(ss[i], ss[i + 1], sizes[i], freshes[i], larges[i], rs[i]),
        chunks_fresh(ss, sizes, freshes, rs),
    ensures
        forall|k: int|
            0 <= k < n ==> #[trigger] block_avoids(rs, sizes, k, tail_start(ss[n]), tail_len(ss[n])),
        forall|k: int, l: int|
            0 <= k < l < n ==> #[trigger] block_avoids(rs, sizes, k, rs[l]->0 as int, sizes[l] as int)
                || rs[l] is None,
    decreases n,
{
    if n > 0 {
        let i = n - 1;
        lemma_allocations_prefix(ss, sizes, freshes, larges, rs, i);
        assert(alloc_step(ss[i], ss[i + 1], sizes[i], freshes[i], larges[i], rs[i]));
        assert(ss[i].wf() && ss[i + 1].wf());
        let s0 = ss[i];
        let s1 = ss[i + 1];
        if sizes[i] < CHUNK_SIZE {
            if let Some(p) = rs[i] {
                lemma_align8(sizes[i]);
                if freshes[i] == Some(s1.chunk()) && p == s1.chunk() {
                    assert forall|k: int| 0 <= k < i implies #[trigger] block_avoids(
                        rs,
                        sizes,
                        k,
                        freshes[i]->0 as int,
                        CHUNK_SIZE as int,
                    ) by {}
                } else {
                    assert(s1.chunk() == s0.chunk() && s0.chunk() != 0);
                }
            }
        }
        assert forall|k: int| 0 <= k < n implies #[trigger] block_avoids(
            rs,
            sizes,
            k,
            tail_start(ss[n]),
            tail_len(ss[n]),
        ) by {
            if k < i {
                assert(block_avoids(rs, sizes, k, tail_start(ss[i]), tail_len(ss[i])));
                if sizes[i] < CHUNK_SIZE && rs[i] is Some && freshes[i] == Some(s1.chunk()) && rs[i]->0
                    == s1.chunk() {
                    assert(block_avoids(rs, sizes, k, freshes[i]->0 as int, CHUNK_SIZE as int));
                }
            }
        }
        assert forall|k: int, l: int| 0 <= k < l < n implies #[trigger] block_avoids(
            rs,
            sizes,
            k,
            rs[l]->0 as int,
            sizes[l] as int,
        ) || rs[l] is None by {
            if l == i && rs[i] is Some {
                assert(block_avoids(rs, sizes, k, tail_start(ss[i]), tail_len(ss[i])));
                if sizes[i] >= CHUNK_SIZE {
                    assert(block_avoids(rs, sizes, k, rs[i]->0 as int, sizes[i] as int));
                } else if freshes[i] == Some(s1.chunk()) && rs[i]->0 == s1.chunk() {
                    assert(block_avoids(rs, sizes, k, freshes[i]->0 as int, CHUNK_SIZE as int));
                }
            }
        }
    }
}

/// Allocates `size` bytes: requests under a chunk go to the slab allocator,
/// larger ones to the chunk allocator. `fresh_chunk` is the chunk
/// allocator's new chunk for the slab (asked for only when
/// `slab.needs_fresh_chunk(size)`), and `large_block` its block for a
/// request of a chunk or more (asked for only then).
pub fn allocate(
    slab: &mut SlabAllocator,
    size: usize,
    fresh_chunk: Option<usize>,
    large_block: Option<usize>,
) -> (r: Option<usize>)
    requires
        old(slab).wf(),
    ensures
        final(slab).wf(),
        alloc_step(*old(slab), *final(slab), size, fresh_chunk, large_block, r),
        size >= CHUNK_SIZE ==> r == large_block && *final(slab) == *old(slab),
        size == 0 ==> r is None && *final(slab) == *old(slab),
        old(slab).needs_chunk(size) ==> match fresh_chunk {
            None => r is None && *final(slab) == *old(slab),
            Some(c) => {
                &&& r == Some(c)
                &&& final(slab).chunk() == c
                &&& final(slab).offset() == align8(size as int)
            },
        },
        0 < size < CHUNK_SIZE && !old(slab).needs_chunk(size) ==> if old(slab).chunk() + old(
            slab,
        ).offset() <= usize::MAX {
            &&& r == Some((old(slab).chunk() + old(slab).offset()) as usize)
            &&& final(slab).chunk() == old(slab).chunk()
            &&& final(slab).offset() == old(slab).offset() + align8(size as int)
        } else {
            r is None && *final(slab) == *old(slab)
        },
{
    if size < CHUNK_SIZE {
        slab.allocate_small(size, fresh_chunk)
    } else {
        large_block
    }
}

} // verus!
