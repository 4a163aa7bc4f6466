//! Hypercall dispatch: IPC ring transfers and guest frame allocation.
use vstd::prelude::*;
use crate::host::memory::ept::HostMemoryManager;

verus! {

pub const HYPERCALL_IPC_SEND: u64 = 0x01;
pub const HYPERCALL_IPC_RECV: u64 = 0x02;
pub const HYPERCALL_ALLOC_FRAME: u64 = 0x03;

/// Dispatches a hypercall: IPC send and receive succeed (0), frame
/// allocation returns the next host frame (0 when none is left), and an
/// unknown call returns `u64::MAX`.
pub fn handle_hypercall(frames: &mut HostMemoryManager, call_id: u64, _arg1: u64, _arg2: u64) -> (r:
    u64)
    requires
        old(frames).wf(),
    ensures
        final(frames).wf(),
        final(frames).range_end() == old(frames).range_end(),
        call_id == HYPERCALL_ALLOC_FRAME ==> if old(frames).has_frame() {
            r == old(frames).next_frame() && final(frames).next_frame() == old(frames).next_frame()
                + 4096
        } else {
            r == 0 && *final(frames) == *old(frames)
        },
        call_id != HYPERCALL_ALLOC_FRAME ==> *final(frames) == *old(frames),
        call_id == HYPERCALL_IPC_SEND || call_id == HYPERCALL_IPC_RECV ==> r == 0,
        call_id != HYPERCALL_IPC_SEND && call_id != HYPERCALL_IPC_RECV && call_id
            != HYPERCALL_ALLOC_FRAME ==> r == u64::MAX,
{
    match call_id {
        HYPERCALL_IPC_SEND => { 0 },
        HYPERCALL_ALLOC_FRAME => frames.allocate_frame(),
        HYPERCALL_IPC_RECV => { 0 },
        _ => { u64::MAX },
    }
}

} // verus!
