//! Lock state of the memory region of a task.
use vstd::prelude::*;

verus! {

/// Whether a task's memory is usable or locked while the task is frozen.
#[derive(Debug, Clone, Copy, PartialEq, Eq, Structural)]
pub enum ProcessMemState {
    Active,
    FrozenLocked,
}

/// The memory region of a task and its lock state.
pub struct MemoryRegionState {
    pub task_id: u64,
    pub base_addr: usize,
    pub size_bytes: usize,
    pub state: ProcessMemState,
}

impl MemoryRegionState {
    /// An active region.
    pub fn new(task_id: u64, base_addr: usize, size_bytes: usize) -> (r: MemoryRegionState)
        ensures
            r == (MemoryRegionState { task_id, base_addr, size_bytes, state: ProcessMemState::Active }),
    {
        MemoryRegionState { task_id, base_addr, size_bytes, state: ProcessMemState::Active }
    }

    /// Locks the region of a frozen background task.
    pub fn lock(&mut self)
        ensures
            *final(self) == (MemoryRegionState { state: ProcessMemState::FrozenLocked, ..*old(self) }),
    {
        self.state = ProcessMemState::FrozenLocked;
    }

    /// Unlocks the region for active execution.
    pub fn unlock(&mut self)
        ensures
            *final(self) == (MemoryRegionState { state: ProcessMemState::Active, ..*old(self) }),
    {
        self.state = ProcessMemState::Active;
    }
}

/// Unlocking undoes locking: the region is as it was when created.
pub proof fn lemma_lock_unlock_roundtrip(r: MemoryRegionState)
    requires
        r.state == ProcessMemState::Active,
    ensures
        (MemoryRegionState {
            state: ProcessMemState::Active,
            ..MemoryRegionState { state: ProcessMemState::FrozenLocked, ..r }
        }) == r,
{
}

} // verus!
