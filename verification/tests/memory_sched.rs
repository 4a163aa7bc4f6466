use eggos::kernel::capability::gate::{CapGate, ERR_INVALID_TOKEN, ERR_REVOKED};
use eggos::kernel::ipc::channel::{IpcChannel, ERR_PAYLOAD_TOO_LARGE, MAX_MSG_SIZE};
use eggos::kernel::memory::allocate;
use eggos::kernel::memory::state::{MemoryRegionState, ProcessMemState};
use eggos::kernel::sched::task::{TaskControlBlock as KernelTask, TaskStatus as KernelStatus};
use eggos::security::capability::token::{CapRights, ResourceKind};
use eggos::security::memory::slab::SlabAllocator;
use eggos::security::memory::stream::{process_data_stream, MatchChunkStream, MAX_CHUNK_CAP};
use eggos::security::memory::CHUNK_SIZE;
use eggos::security::sched::task::{BackgroundTier, TaskControlBlock, TaskStatus};
use eggos::security::sched::TaskManager;

#[test]
fn slab_packs_eight_byte_blocks() {
    let mut s = SlabAllocator::new();
    assert!(!s.needs_fresh_chunk(0));
    assert_eq!(s.allocate_small(0, Some(0x10000)), None);
    assert_eq!(s.allocate_small(CHUNK_SIZE, Some(0x10000)), None);
    assert!(s.needs_fresh_chunk(3));
    assert_eq!(s.allocate_small(3, None), None);
    assert_eq!(s.allocate_small(3, Some(0x10000)), Some(0x10000));
    assert!(!s.needs_fresh_chunk(9));
    assert_eq!(s.allocate_small(9, None), Some(0x10008));
    assert_eq!(s.allocate_small(8, None), Some(0x10018));
    // fill the chunk: 0x10020 - 0x10000 = 32 bytes used
    assert_eq!(s.allocate_small(CHUNK_SIZE - 32, None), Some(0x10020));
    assert!(s.needs_fresh_chunk(1));
    assert_eq!(s.allocate_small(1, Some(0x30000)), Some(0x30000));
    assert_eq!(s.allocate_small(1, None), Some(0x30008));
}

#[test]
fn allocation_routing() {
    let mut s = SlabAllocator::new();
    assert_eq!(allocate(&mut s, 100, Some(0x40000), None), Some(0x40000));
    assert_eq!(allocate(&mut s, 100, None, None), Some(0x40068));
    assert_eq!(allocate(&mut s, CHUNK_SIZE, None, Some(0x90000)), Some(0x90000));
    assert_eq!(allocate(&mut s, 150 * 1024, None, None), None);
}

#[test]
fn chunk_stream_covers_the_transfer() {
    let mut st = MatchChunkStream::new(150 * 1024);
    assert_eq!(st.remaining(), 150 * 1024);
    assert_eq!(st.next(), Some(MAX_CHUNK_CAP));
    assert_eq!(st.next(), Some(MAX_CHUNK_CAP));
    assert_eq!(st.next(), Some(22 * 1024));
    assert_eq!(st.next(), None);
    assert_eq!(st.remaining(), 0);
    let mut small = MatchChunkStream::new(10);
    assert_eq!(small.next(), Some(10));
    assert_eq!(small.next(), None);
    assert_eq!(MatchChunkStream::new(0).next(), None);
}

#[test]
fn data_stream_offsets_and_interruption() {
    let mut seen = Vec::new();
    let done = process_data_stream(2 * MAX_CHUNK_CAP + 1, |size, offset| {
        seen.push((size, offset));
        Ok(())
    });
    assert_eq!(done, None);
    assert_eq!(seen, vec![(MAX_CHUNK_CAP, 0), (MAX_CHUNK_CAP, MAX_CHUNK_CAP), (1, 2 * MAX_CHUNK_CAP)]);
    let mut calls = 0;
    let stopped = process_data_stream(3 * MAX_CHUNK_CAP, |_size, offset| {
        calls += 1;
        if offset > 0 { Err("stop") } else { Ok(()) }
    });
    assert_eq!(calls, 2);
    assert_eq!(stopped, Some(1));
    assert_eq!(process_data_stream(0, |_s, _o| Err("never")), None);
}

#[test]
fn memory_region_lock_cycle() {
    let mut r = MemoryRegionState::new(7, 0x8000, 0x1000);
    assert_eq!(r.state, ProcessMemState::Active);
    r.lock();
    assert_eq!(r.state, ProcessMemState::FrozenLocked);
    r.unlock();
    assert_eq!(r.state, ProcessMemState::Active);
    assert_eq!((r.task_id, r.base_addr, r.size_bytes), (7, 0x8000, 0x1000));
}

#[test]
fn idle_task_freezes_after_five_minutes() {
    let mut t = KernelTask::new(1, 2);
    for _ in 0..299 {
        assert!(!t.tick_idle());
    }
    assert_eq!(t.status, KernelStatus::Ready);
    assert!(t.tick_idle());
    assert_eq!(t.status, KernelStatus::Frozen);
    assert_eq!(t.idle_time_seconds, 300);
    assert!(!t.tick_idle());
    assert_eq!(t.idle_time_seconds, 300);
    t.wake();
    assert_eq!((t.status, t.idle_time_seconds), (KernelStatus::Ready, 0));
    t.status = KernelStatus::Terminated;
    assert!(!t.tick_idle());
    assert_eq!(t.idle_time_seconds, 0);
}

#[test]
fn standard_task_without_work_freezes() {
    let mut t = TaskControlBlock::new(3, "editor", BackgroundTier::Standard);
    assert!(t.has_active_work);
    assert_eq!(t.tick_idle(), None);
    assert_eq!(t.idle_time_seconds, 0);
    t.has_active_work = false;
    for _ in 0..299 {
        assert_eq!(t.tick_idle(), None);
    }
    assert_eq!(t.tick_idle(), Some("editor"));
    assert_eq!(t.status, TaskStatus::Frozen);
    t.on_user_interaction();
    assert_eq!((t.status, t.idle_time_seconds), (TaskStatus::Ready, 0));
    t.status = TaskStatus::Running;
    t.idle_time_seconds = 5;
    t.on_user_interaction();
    assert_eq!((t.status, t.idle_time_seconds), (TaskStatus::Running, 5));
}

#[test]
fn privileged_task_never_freezes() {
    let mut t = TaskControlBlock::new(4, "audio", BackgroundTier::PrivilegedBackground);
    t.has_active_work = false;
    for _ in 0..1000 {
        assert_eq!(t.tick_idle(), None);
    }
    assert_eq!(t.status, TaskStatus::Ready);
    assert_eq!(t.idle_time_seconds, 0);
}

#[test]
fn task_manager_spawns_and_ticks() {
    let mut m = TaskManager::new();
    for i in 1..=16u64 {
        assert_eq!(m.spawn("app", BackgroundTier::Standard), Some(i));
    }
    assert_eq!(m.spawn("one too many", BackgroundTier::Standard), None);
    assert!(m.on_second_tick().is_empty());
    m.handle_user_input(3);
    m.handle_user_input(99);
    assert!(m.on_second_tick().is_empty());
}

#[test]
fn ipc_transfers_need_the_token() {
    let mut gate = CapGate::new();
    let t = gate.mint(2, ResourceKind::IpcChannel, 0, 4096, CapRights::read_write()).unwrap();
    let ch = IpcChannel::new(1, t.id);
    assert_eq!(ch.channel_id, 1);
    assert_eq!(ch.send(&gate, 5, &[1, 2, 3]), Ok(()));
    assert_eq!(ch.send(&gate, 5, &vec![0u8; MAX_MSG_SIZE + 1]), Err(ERR_PAYLOAD_TOO_LARGE));
    assert_eq!(ch.stream_payload(&gate, 4096), Ok(()));
    let stranger = IpcChannel::new(2, 4242);
    assert_eq!(stranger.send(&gate, 5, &[1]), Err(ERR_INVALID_TOKEN));
    gate.revoke(t.id);
    assert_eq!(ch.stream_payload(&gate, 16), Err(ERR_REVOKED));
}

#[test]
fn allocations_never_overlap() {
    let mut s = SlabAllocator::new();
    let mut next_chunk = 0x100000usize;
    let mut blocks: Vec<(usize, usize)> = Vec::new();
    for size in [24usize, 1, 70000, 65000, 9, CHUNK_SIZE - 1, 3, 200000, 17] {
        let fresh = if s.needs_fresh_chunk(size) {
            next_chunk += CHUNK_SIZE;
            Some(next_chunk - CHUNK_SIZE)
        } else {
            None
        };
        let large = if size >= CHUNK_SIZE {
            next_chunk += size;
            Some(next_chunk - size)
        } else {
            None
        };
        let p = allocate(&mut s, size, fresh, large).unwrap();
        assert_eq!(p % 8, 0);
        blocks.push((p, size));
    }
    for i in 0..blocks.len() {
        for j in i + 1..blocks.len() {
            let (a, la) = blocks[i];
            let (c, lc) = blocks[j];
            assert!(a + la <= c || c + lc <= a);
        }
    }
}

#[test]
fn revoked_tokens_stay_revoked() {
    let mut gate = CapGate::new();
    let t = gate.mint(2, ResourceKind::MemoryRegion, 0x1000, 4096, CapRights::read_write()).unwrap();
    assert!(gate.revoke(t.id));
    let u = gate.mint(2, ResourceKind::MemoryRegion, 0x1000, 4096, CapRights::read_write()).unwrap();
    assert_ne!(u.id, t.id);
    assert!(gate.revoke(u.id));
    assert!(gate.revoke(t.id));
    assert_eq!(gate.verify_access(t.id, 0x1000, 16, CapRights::read_only()), Err(ERR_REVOKED));
}
