//! Small-object allocation inside 64 KiB chunks, and capped chunk streams.
use vstd::prelude::*;

pub mod slab;
pub mod stream;

verus! {

/// Size of the chunks that the chunk allocator hands out: 64 KiB.
pub const CHUNK_SIZE: usize = 65536;

} // verus!
