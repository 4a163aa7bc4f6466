//! Tasks with background tiers: privileged background work never freezes,
//! standard applications freeze after five idle minutes without work.
use vstd::prelude::*;
use crate::security::capability::token::CapToken;

verus! {

/// Seconds without work after which a standard task freezes.
pub const IDLE_FREEZE_SECONDS: u64 = 300;

/// Scheduling status of a task.
#[derive(Debug, Clone, Copy, PartialEq, Eq, Structural)]
pub enum TaskStatus {
    Ready,
    Running,
    Frozen,
    Terminated,
}

/// How a task is treated when idle.
#[derive(Debug, Clone, Copy, PartialEq, Eq, Structural)]
pub enum BackgroundTier {
    /// Privileged background execution (training, audio, games, daemons):
    /// never frozen automatically.
    PrivilegedBackground,
    /// A standard interactive application: frozen after 300 idle seconds once
    /// its active work has finished.
    Standard,
}

/// A task, its tier and its idle clock.
pub struct TaskControlBlock {
    pub id: u64,
    pub name: &'static str,
    pub background_tier: BackgroundTier,
    pub status: TaskStatus,
    pub idle_time_seconds: u64,
    pub cap_token: Option<CapToken>,
    pub has_active_work: bool,
}

impl TaskControlBlock {
    /// The task after an idle second, and the name to announce if it froze.
    pub open spec fn after_tick(self) -> (TaskControlBlock, Option<&'static str>) {
        if self.background_tier == BackgroundTier::PrivilegedBackground {
            (self, None)
        } else if self.has_active_work {
            (TaskControlBlock { idle_time_seconds: 0, ..self }, None)
        } else if self.status == TaskStatus::Ready || self.status == TaskStatus::Running {
            let t = (self.idle_time_seconds + 1) as u64;
            if t >= IDLE_FREEZE_SECONDS {
                (TaskControlBlock { idle_time_seconds: t, status: TaskStatus::Frozen, ..self }, Some(self.name))
            } else {
                (TaskControlBlock { idle_time_seconds: t, ..self }, None)
            }
        } else {
            (self, None)
        }
    }

    /// Whether an idle second cannot overflow the task's clock.
    pub open spec fn can_tick(self) -> bool {
        (self.background_tier == BackgroundTier::Standard && !self.has_active_work && (self.status
            == TaskStatus::Ready || self.status == TaskStatus::Running)) ==> self.idle_time_seconds
            < u64::MAX
    }

    /// The task after user interaction: a frozen or ready task becomes ready
    /// with a fresh idle clock; running and terminated tasks are unchanged.
    pub open spec fn after_interaction(self) -> TaskControlBlock {
        if self.status == TaskStatus::Frozen || self.status == TaskStatus::Ready {
            TaskControlBlock { status: TaskStatus::Ready, idle_time_seconds: 0, ..self }
        } else {
            self
        }
    }

    /// A ready task with active work and no capability.
    pub fn new(id: u64, name: &'static str, background_tier: BackgroundTier) -> (r: TaskControlBlock)
        ensures
            r == (TaskControlBlock {
                id,
                name,
                background_tier,
                status: TaskStatus::Ready,
                idle_time_seconds: 0,
                cap_token: None,
                has_active_work: true,
            }),
    {
        TaskControlBlock {
            id,
            name,
            background_tier,
            status: TaskStatus::Ready,
            idle_time_seconds: 0,
            cap_token: None,
            has_active_work: true,
        }
    }

    /// Restores a frozen or idle task when the user interacts with it.
    pub fn on_user_interaction(&mut self)
        ensures
            *final(self) == old(self).after_interaction(),
    {
        if self.status == TaskStatus::Frozen || self.status == TaskStatus::Ready {
            self.status = TaskStatus::Ready;
            self.idle_time_seconds = 0;
        }
    }

    /// One idle second: privileged tasks are untouched; a standard task with
    /// active work has its clock reset; a ready or running standard task
    /// without work freezes at 300 seconds and returns its name for the
    /// notification.
    pub fn tick_idle(&mut self) -> (r: Option<&'static str>)
        requires
            old(self).can_tick(),
        ensures
            (*final(self), r) == old(self).after_tick(),
    {
        if self.background_tier == BackgroundTier::PrivilegedBackground {
            return None;
        }
        if self.has_active_work {
            self.idle_time_seconds = 0;
            return None;
        }
        if self.status == TaskStatus::Ready || self.status == TaskStatus::Running {
            self.idle_time_seconds = self.idle_time_seconds + 1;
            if self.idle_time_seconds >= IDLE_FREEZE_SECONDS {
                self.status = TaskStatus::Frozen;
                return Some(self.name);
            }
        }
        None
    }
}

/// Privileged background tasks never freeze, and neither does a standard
/// task that still has active work.
pub proof fn lemma_exempt_tasks_never_freeze(t: TaskControlBlock)
    requires
        t.background_tier == BackgroundTier::PrivilegedBackground || t.has_active_work,
    ensures
        t.after_tick().1 is None,
        t.after_tick().0.status == t.status,
{
}

/// Interaction undoes a freeze: a frozen task becomes ready with its idle
/// clock reset.
pub proof fn lemma_interaction_thaws(t: TaskControlBlock)
    requires
        t.status == TaskStatus::Frozen,
    ensures
        t.after_interaction().status == TaskStatus::Ready,
        t.after_interaction().idle_time_seconds == 0,
{
}

/// User interaction with a ready or frozen task restarts its countdown: the
/// task is ready with an idle clock of zero and nothing else changes, so a
/// standard task without work then stays ready for another 299 idle seconds
/// and freezes only on the 300th. Running and terminated tasks are left as
/// they are.
pub proof fn lemma_interaction_restarts_countdown(t: TaskControlBlock, n: nat)
    requires
        n <= IDLE_FREEZE_SECONDS,
    ensures
        (t.status == TaskStatus::Ready || t.status == TaskStatus::Frozen) ==> {
            &&& t.after_interaction().status == TaskStatus::Ready
            &&& t.after_interaction().idle_time_seconds == 0
            &&& t.after_interaction().id == t.id
            &&& t.after_interaction().name == t.name
            &&& t.after_interaction().background_tier == t.background_tier
            &&& t.after_interaction().cap_token == t.cap_token
            &&& t.after_interaction().has_active_work == t.has_active_work
        },
        (t.status == TaskStatus::Running || t.status == TaskStatus::Terminated) ==> t.after_interaction()
            == t,
        ((t.status == TaskStatus::Ready || t.status == TaskStatus::Frozen) && t.background_tier
            == BackgroundTier::Standard && !t.has_active_work) ==> {
            &&& n < IDLE_FREEZE_SECONDS ==> after_ticks(t.after_interaction(), n).status == TaskStatus::Ready
            &&& n == IDLE_FREEZE_SECONDS ==> after_ticks(t.after_interaction(), n).status
                == TaskStatus::Frozen
        },
{
    if (t.status == TaskStatus::Ready || t.status == TaskStatus::Frozen) && t.background_tier
        == BackgroundTier::Standard && !t.has_active_work {
        lemma_standard_task_freezes_after_five_minutes(t.after_interaction(), n);
    }
}

/// The task after `n` idle seconds.
pub open spec fn after_ticks(t: TaskControlBlock, n: nat) -> TaskControlBlock
    decreases n,
{
    if n == 0 {
        t
    } else {
        after_ticks(t, (n - 1) as nat).after_tick().0
    }
}

/// A ready standard task whose work has finished stays ready through 299
/// idle seconds and freezes on the 300th, which announces its name.
pub proof fn lemma_standard_task_freezes_after_five_minutes(t: TaskControlBlock, n: nat)
    requires
        t.background_tier == BackgroundTier::Standard,
        !t.has_active_work,
        t.status == TaskStatus::Ready,
        t.idle_time_seconds == 0,
        n <= IDLE_FREEZE_SECONDS,
    ensures
        after_ticks(t, n).idle_time_seconds == n,
        after_ticks(t, n).background_tier == BackgroundTier::Standard,
        !after_ticks(t, n).has_active_work,
        after_ticks(t, n).name == t.name,
        n < IDLE_FREEZE_SECONDS ==> after_ticks(t, n).status == TaskStatus::Ready,
        n == IDLE_FREEZE_SECONDS ==> after_ticks(t, n).status == TaskStatus::Frozen,
        n > 0 ==> after_ticks(t, (n - 1) as nat).after_tick().1 == (if n == IDLE_FREEZE_SECONDS {
            Some(t.name)
        } else {
            None::<&'static str>
        }),
    decreases n,
{
    if n > 0 {
        lemma_standard_task_freezes_after_five_minutes(t, (n - 1) as nat);
    }
}

} // verus!
