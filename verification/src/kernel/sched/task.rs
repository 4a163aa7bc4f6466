//! Task control blocks with an idle clock that freezes a task after five
//! minutes without activity.
use vstd::prelude::*;
use crate::security::capability::token::CapToken;

verus! {

/// Seconds of idleness after which a task freezes.
pub const IDLE_FREEZE_SECONDS: u64 = 300;

/// Scheduling status of a task.
#[derive(Debug, Clone, Copy, PartialEq, Eq, Structural)]
pub enum TaskStatus {
    Ready,
    Running,
    Frozen,
    Terminated,
}

/// A task and its idle clock.
pub struct TaskControlBlock {
    pub id: u64,
    pub owner_tier: u8,
    pub status: TaskStatus,
    pub idle_time_seconds: u64,
    pub cap_token: Option<CapToken>,
}

/// Whether a task's idle clock runs: it is ready or running.
pub open spec fn is_live(status: TaskStatus) -> bool {
    status == TaskStatus::Ready || status == TaskStatus::Running
}

impl TaskControlBlock {
    /// The task after one idle second, and whether it froze on it.
    pub open spec fn after_tick(self) -> (TaskControlBlock, bool) {
        if is_live(self.status) {
            let t = (self.idle_time_seconds + 1) as u64;
            if t >= IDLE_FREEZE_SECONDS {
                (TaskControlBlock { idle_time_seconds: t, status: TaskStatus::Frozen, ..self }, true)
            } else {
                (TaskControlBlock { idle_time_seconds: t, ..self }, false)
            }
        } else {
            (self, false)
        }
    }

    /// A ready task with no capability.
    pub fn new(id: u64, owner_tier: u8) -> (r: TaskControlBlock)
        ensures
            r == (TaskControlBlock {
                id,
                owner_tier,
                status: TaskStatus::Ready,
                idle_time_seconds: 0,
                cap_token: None,
            }),
    {
        TaskControlBlock {
            id,
            owner_tier,
            status: TaskStatus::Ready,
            idle_time_seconds: 0,
            cap_token: None,
        }
    }

    /// One idle second: a ready or running task's clock advances, and at 300
    /// seconds the task freezes (reported by `true`). Frozen and terminated
    /// tasks are left alone.
    pub fn tick_idle(&mut self) -> (r: bool)
        requires
            is_live(old(self).status) ==> old(self).idle_time_seconds < u64::MAX,
        ensures
            (*final(self), r) == old(self).after_tick(),
    {
        if self.status == TaskStatus::Ready || self.status == TaskStatus::Running {
            self.idle_time_seconds = self.idle_time_seconds + 1;
            if self.idle_time_seconds >= IDLE_FREEZE_SECONDS {
                self.status = TaskStatus::Frozen;
                return true;
            }
        }
        false
    }

    /// Wakes the task: ready, with a fresh idle clock.
    pub fn wake(&mut self)
        ensures
            *final(self) == (TaskControlBlock {
                status: TaskStatus::Ready,
                idle_time_seconds: 0,
                ..*old(self)
            }),
    {
        self.status = TaskStatus::Ready;
        self.idle_time_seconds = 0;
    }
}

/// The task after `n` idle seconds.
pub open spec fn after_ticks(t: TaskControlBlock, n: nat) -> TaskControlBlock
    decreases n,
{
    if n == 0 {
        t
    } else {
        after_ticks(t, (n - 1) as nat).after_tick().0
    }
}

/// A task that is ready with a fresh idle clock stays ready through its
/// first 299 idle seconds and freezes on the 300th, announcing it then and
/// only then.
pub proof fn lemma_freezes_after_five_minutes(t: TaskControlBlock, n: nat)
    requires
        t.status == TaskStatus::Ready,
        t.idle_time_seconds == 0,
        n <= IDLE_FREEZE_SECONDS,
    ensures
        after_ticks(t, n).idle_time_seconds == n,
        n < IDLE_FREEZE_SECONDS ==> after_ticks(t, n).status == TaskStatus::Ready,
        n == IDLE_FREEZE_SECONDS ==> after_ticks(t, n).status == TaskStatus::Frozen,
        n > 0 ==> (after_ticks(t, (n - 1) as nat).after_tick().1 <==> n == IDLE_FREEZE_SECONDS),
    decreases n,
{
    if n > 0 {
        lemma_freezes_after_five_minutes(t, (n - 1) as nat);
    }
}

/// Frozen and terminated tasks keep their state through idle seconds.
pub proof fn lemma_idle_tasks_stay(t: TaskControlBlock, n: nat)
    requires
        !is_live(t.status),
    ensures
        after_ticks(t, n) == t,
    decreases n,
{
    if n > 0 {
        lemma_idle_tasks_stay(t, (n - 1) as nat);
    }
}

} // verus!
