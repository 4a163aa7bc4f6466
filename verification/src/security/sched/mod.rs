//! The security kernel's task table.
use vstd::prelude::*;

pub mod task;

pub use task::{BackgroundTier, TaskControlBlock, TaskStatus};

verus! {

/// Maximum number of tasks.
pub const MAX_TASKS: usize = 16;

/// A table of up to 16 tasks with identifiers 1, 2, ... in spawn order.
pub struct TaskManager {
    tasks: [Option<TaskControlBlock>; MAX_TASKS],
    count: usize,
}

impl TaskManager {
    /// The spawned tasks, in spawn order.
    pub closed spec fn tasks(&self) -> Seq<TaskControlBlock> {
        Seq::new(self.count as nat, |i: int| self.tasks@[i].unwrap())
    }

    /// The table's invariant: tasks fill a prefix of the slots, the task in
    /// slot `i` has identifier `i + 1`, and every task still has its active
    /// work (so its idle clock stays at zero).
    pub closed spec fn wf(&self) -> bool {
        &&& self.count <= MAX_TASKS
        &&& forall|i: int| 0 <= i < MAX_TASKS ==> (#[trigger] self.tasks@[i] is Some <==> i < self.count)
        &&& forall|i: int|
            0 <= i < self.count ==> {
                &&& (#[trigger] self.tasks@[i]).unwrap().id == i + 1
                &&& self.tasks@[i].unwrap().has_active_work
                &&& self.tasks@[i].unwrap().idle_time_seconds == 0
            }
    }

    /// The public face of the invariant.
    pub open spec fn valid(&self) -> bool {
        &&& self.wf()
        &&& self.tasks().len() <= MAX_TASKS
        &&& forall|i: int| 0 <= i < self.tasks().len() ==> (#[trigger] self.tasks()[i]).id == i + 1
    }

    proof fn lemma_valid(&self)
        requires
            self.wf(),
        ensures
            self.valid(),
    {
        assert forall|i: int| 0 <= i < self.tasks().len() implies (#[trigger] self.tasks()[i]).id
            == i + 1 by {
            assert(self.tasks@[i] is Some);
        }
    }

    /// An empty table.
    pub fn new() -> (r: TaskManager)
        ensures
            r.valid(),
            r.tasks() == Seq::<TaskControlBlock>::empty(),
    {
        let r = TaskManager {
            tasks: [None, None, None, None, None, None, None, None, None, None, None, None, None, None, None, None],
            count: 0,
        };
        assert(r.tasks() =~= Seq::<TaskControlBlock>::empty());
        proof {
            r.lemma_valid();
        }
        r
    }

    /// Spawns a ready task with active work under the next identifier;
    /// fails when the table is full.
    pub fn spawn(&mut self, name: &'static str, background_tier: BackgroundTier) -> (r: Option<u64>)
        requires
            old(self).valid(),
        ensures
            final(self).valid(),
            old(self).tasks().len() >= MAX_TASKS ==> r is None && final(self).tasks() == old(
                self,
            ).tasks(),
            old(self).tasks().len() < MAX_TASKS ==> {
                let id = (old(self).tasks().len() + 1) as u64;
                &&& r == Some(id)
                &&& final(self).tasks() == old(self).tasks().push(
                    TaskControlBlock {
                        id,
                        name,
                        background_tier,
                        status: TaskStatus::Ready,
                        idle_time_seconds: 0,
                        cap_token: None,
                        has_active_work: true,
                    },
                )
            },
    {
        if self.count >= MAX_TASKS {
            return None;
        }
        let ghost old_tasks = self.tasks();
        let id = (self.count + 1) as u64;
        let task = TaskControlBlock::new(id, name, background_tier);
        self.tasks[self.count] = Some(task);
        self.count = self.count + 1;
        proof {
            assert(self.tasks() =~= old_tasks.push(task));
            assert(self.wf());
            self.lemma_valid();
        }
        Some(id)
    }

    /// Unfreezes the task the user's input is directed at; an unknown
    /// identifier changes nothing.
    pub fn handle_user_input(&mut self, task_id: u64)
        requires
            old(self).valid(),
        ensures
            final(self).valid(),
            final(self).tasks() == (if 1 <= task_id <= old(self).tasks().len() {
                old(self).tasks().update(
                    task_id - 1,
                    old(self).tasks()[task_id - 1].after_interaction(),
                )
            } else {
                old(self).tasks()
            }),
    {
        let ghost old_tasks = self.tasks();
        let mut i: usize = 0;
        while i < self.count
            invariant
                self.wf(),
                self.tasks() == old_tasks,
                old_tasks == old(self).tasks(),
                0 <= i <= self.count,
                forall|j: int| 0 <= j < i ==> (#[trigger] old_tasks[j]).id != task_id,
            decreases self.count - i,
        {
            assert(self.tasks@[i as int] is Some);
            if let Some(task) = &mut self.tasks[i] {
                if task.id == task_id {
                    task.on_user_interaction();
                    proof {
                        assert(self.tasks() =~= old_tasks.update(
                            task_id - 1,
                            old_tasks[task_id - 1].after_interaction(),
                        ));
                        assert(self.wf());
                        self.lemma_valid();
                    }
                    return;
                }
            }
            assert(old_tasks[i as int].id != task_id);
            i = i + 1;
        }
        proof {
            if 1 <= task_id <= old_tasks.len() {
                assert(old_tasks[task_id - 1].id == task_id);
            }
            self.lemma_valid();
        }
    }

    /// One second of idleness for every task; returns the names of the tasks
    /// that froze, for their notifications.
    pub fn on_second_tick(&mut self) -> (r: Vec<&'static str>)
        requires
            old(self).valid(),
        ensures
            final(self).valid(),
            final(self).tasks() == old(self).tasks().map_values(
                |t: TaskControlBlock| t.after_tick().0,
            ),
            r@ == old(self).tasks().filter_map(|t: TaskControlBlock| t.after_tick().1),
    {
        let ghost old_tasks = self.tasks();
        let mut toasts: Vec<&'static str> = Vec::new();
        let mut i: usize = 0;
        while i < self.count
            invariant
                self.wf(),
                0 <= i <= self.count,
                self.count == old_tasks.len(),
                forall|j: int| 0 <= j < i ==> #[trigger] self.tasks()[j] == old_tasks[j].after_tick().0,
                forall|j: int| i <= j < self.count ==> #[trigger] self.tasks()[j] == old_tasks[j],
                toasts@ == old_tasks.take(i as int).filter_map(|t: TaskControlBlock| t.after_tick().1),
            decreases self.count - i,
        {
            assert(self.tasks@[i as int] is Some);
            let ghost before = self.tasks();
            let ghost before_toasts = toasts@;
            assert(before[i as int] == old_tasks[i as int]);
            let mut frozen: Option<&'static str> = None;
            if let Some(task) = &mut self.tasks[i] {
                frozen = task.tick_idle();
            }
            assert(frozen == old_tasks[i as int].after_tick().1);
            if let Some(app_name) = frozen {
                toasts.push(app_name);
            }
            proof {
                let f = |t: TaskControlBlock| t.after_tick().1;
                let ti = old_tasks.take(i + 1);
                assert(ti.drop_last() =~= old_tasks.take(i as int));
                assert(ti.last() == old_tasks[i as int]);
                match f(old_tasks[i as int]) {
                    Some(name) => {
                        assert(toasts@ =~= before_toasts + seq![name]);
                    },
                    None => {},
                }
                assert forall|j: int| 0 <= j < i + 1 implies #[trigger] self.tasks()[j]
                    == old_tasks[j].after_tick().0 by {
                    if j < i {
                        assert(self.tasks()[j] == before[j]);
                    }
                }
                assert forall|j: int| i + 1 <= j < self.count implies #[trigger] self.tasks()[j]
                    == old_tasks[j] by {
                    assert(self.tasks()[j] == before[j]);
                }
            }
            i = i + 1;
        }
        proof {
            assert(old_tasks.take(i as int) =~= old_tasks);
            assert(self.tasks() =~= old_tasks.map_values(|t: TaskControlBlock| t.after_tick().0));
            self.lemma_valid();
        }
        toasts
    }
}

} // verus!
