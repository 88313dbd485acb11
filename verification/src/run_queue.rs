//! The per-CPU run queue: every live task, the ready queue, the running
//! task, and the lock that serializes scheduling decisions.
//!
//! The lock is deliberately held across the context switch: the task that
//! acquires it is suspended mid-protocol, and the task that resumes releases
//! it as its very first action. The reschedule operations here therefore
//! return with the lock still held, and the caller — the resumed execution
//! path — must release it through [`AxRunQueue::finish_switch`] or
//! [`AxRunQueue::task_entry`] before doing anything else.
use vstd::prelude::*;

use crate::task::TaskId;
use crate::task::TaskInner;
use crate::task::TaskState;
use crate::KERNEL_PROCESS_ID;
use crate::SMP;

verus! {

/// Whether a task may run on the given CPU: its affinity mask holds that
/// CPU's bit.
pub open spec fn spec_eligible(t: TaskInner, cpu: usize) -> bool {
    (t.cpu_set >> cpu) & 1 == 1
}

/// The position of the best runnable candidate among the first `n` ready
/// entries: the earliest entry of maximum priority among the tasks that may
/// run on this CPU and are not the idle task; `None` when no such entry
/// exists.
pub open spec fn spec_best(tasks: Seq<TaskInner>, ready: Seq<usize>, cpu: usize, n: int) -> Option<
    int,
>
    decreases n,
{
    if n <= 0 {
        None
    } else {
        let prev = spec_best(tasks, ready, cpu, n - 1);
        let j = n - 1;
        let t = tasks[ready[j] as int];
        if spec_eligible(t, cpu) && !t.is_idle {
            match prev {
                None => Some(j),
                Some(b) => if t.sched_status.priority > tasks[ready[b] as int].sched_status.priority {
                    Some(j)
                } else {
                    Some(b)
                },
            }
        } else {
            prev
        }
    }
}

/// The position of the first idle task among the first `n` ready entries.
pub open spec fn spec_first_idle(tasks: Seq<TaskInner>, ready: Seq<usize>, n: int) -> Option<int>
    decreases n,
{
    if n <= 0 {
        None
    } else {
        let prev = spec_first_idle(tasks, ready, n - 1);
        if prev is Some {
            prev
        } else if tasks[ready[n - 1] as int].is_idle {
            Some(n - 1)
        } else {
            None
        }
    }
}

/// The ready position selection takes: the earliest highest-priority task
/// that may run on this CPU, the idle task when no other candidate exists,
/// and `None` on an empty field.
pub open spec fn spec_pick(tasks: Seq<TaskInner>, ready: Seq<usize>, cpu: usize) -> Option<int> {
    match spec_best(tasks, ready, cpu, ready.len() as int) {
        Some(b) => Some(b),
        None => spec_first_idle(tasks, ready, ready.len() as int),
    }
}

/// One waiter taken off a wait queue: a task still blocked becomes ready
/// and leaves its queue; a stale entry (already woken or exited) changes
/// nothing.
pub open spec fn spec_wake_one(tasks: Seq<TaskInner>, w: usize) -> Seq<TaskInner> {
    if w < tasks.len() && tasks[w as int].state == TaskState::Blocked {
        tasks.update(
            w as int,
            (TaskInner { state: TaskState::Ready, in_wait_queue: false, ..tasks[w as int] }),
        )
    } else {
        tasks
    }
}

/// Whether waking `w` actually unblocks a task.
pub open spec fn spec_wakes(tasks: Seq<TaskInner>, w: usize) -> bool {
    w < tasks.len() && tasks[w as int].state == TaskState::Blocked
}

/// The task states after waking every waiter in the sequence in order.
pub open spec fn spec_wake_all_tasks(tasks: Seq<TaskInner>, waiters: Seq<usize>) -> Seq<TaskInner>
    decreases waiters.len(),
{
    if waiters.len() == 0 {
        tasks
    } else {
        spec_wake_all_tasks(spec_wake_one(tasks, waiters[0]), waiters.drop_first())
    }
}

/// The slots appended to the ready queue by waking every waiter in the
/// sequence in order: the waiters that were still blocked at their turn,
/// in queue order.
pub open spec fn spec_wake_all_added(tasks: Seq<TaskInner>, waiters: Seq<usize>) -> Seq<usize>
    decreases waiters.len(),
{
    if waiters.len() == 0 {
        Seq::empty()
    } else {
        let rest_tasks = spec_wake_one(tasks, waiters[0]);
        let rest = spec_wake_all_added(rest_tasks, waiters.drop_first());
        if spec_wakes(tasks, waiters[0]) {
            seq![waiters[0]] + rest
        } else {
            rest
        }
    }
}

/// Waking a queue one waiter longer wakes the prefix first, then the last
/// waiter against the states the prefix left behind.
pub proof fn lemma_wake_all_snoc(tasks: Seq<TaskInner>, waiters: Seq<usize>, w: usize)
    ensures
        spec_wake_all_tasks(tasks, waiters.push(w)) == spec_wake_one(
            spec_wake_all_tasks(tasks, waiters),
            w,
        ),
        spec_wake_all_added(tasks, waiters.push(w)) == (if spec_wakes(
            spec_wake_all_tasks(tasks, waiters),
            w,
        ) {
            spec_wake_all_added(tasks, waiters).push(w)
        } else {
            spec_wake_all_added(tasks, waiters)
        }),
    decreases waiters.len(),
{
    reveal_with_fuel(spec_wake_all_tasks, 2);
    reveal_with_fuel(spec_wake_all_added, 2);
    if waiters.len() == 0 {
        assert(waiters.push(w)[0] == w);
        assert(waiters.push(w).drop_first() =~= Seq::<usize>::empty());
        assert(waiters =~= Seq::<usize>::empty());
    } else {
        let h = waiters[0];
        let t2 = spec_wake_one(tasks, h);
        let rest = waiters.drop_first();
        assert(waiters.push(w)[0] == h);
        assert(waiters.push(w).drop_first() =~= rest.push(w));
        lemma_wake_all_snoc(t2, rest, w);
        let added2 = spec_wake_all_added(t2, rest);
        if spec_wakes(tasks, h) {
            assert(seq![h] + added2.push(w) =~= (seq![h] + added2).push(w));
        }
    }
}

/// What a best-candidate answer means: a position among the first `n`
/// ready entries holding an eligible non-idle task of maximum priority,
/// the earliest such position on ties; no answer means no eligible
/// non-idle task stands there.
pub proof fn lemma_spec_best_props(tasks: Seq<TaskInner>, ready: Seq<usize>, cpu: usize, n: int)
    requires
        0 <= n <= ready.len(),
    ensures
        spec_best(tasks, ready, cpu, n) is None ==> forall|j: int|
            0 <= j < n ==> !(spec_eligible(tasks[ready[j] as int], cpu)
                && !tasks[ready[j] as int].is_idle),
        spec_best(tasks, ready, cpu, n) matches Some(b) ==> 0 <= b < n && spec_eligible(
            tasks[ready[b] as int],
            cpu,
        ) && !tasks[ready[b] as int].is_idle && (forall|j: int|
            0 <= j < n && spec_eligible(tasks[ready[j] as int], cpu)
                && !tasks[ready[j] as int].is_idle ==> tasks[ready[j] as int].sched_status.priority
                <= tasks[ready[b] as int].sched_status.priority) && (forall|j: int|
            0 <= j < b && spec_eligible(tasks[ready[j] as int], cpu)
                && !tasks[ready[j] as int].is_idle ==> tasks[ready[j] as int].sched_status.priority
                < tasks[ready[b] as int].sched_status.priority),
    decreases n,
{
    if n > 0 {
        lemma_spec_best_props(tasks, ready, cpu, n - 1);
    }
}

/// What a first-idle answer means: the earliest idle task among the first
/// `n` ready entries; no answer means none stands there.
pub proof fn lemma_spec_first_idle_props(tasks: Seq<TaskInner>, ready: Seq<usize>, n: int)
    requires
        0 <= n <= ready.len(),
    ensures
        spec_first_idle(tasks, ready, n) is None ==> forall|j: int|
            0 <= j < n ==> !tasks[ready[j] as int].is_idle,
        spec_first_idle(tasks, ready, n) matches Some(f) ==> 0 <= f < n
            && tasks[ready[f] as int].is_idle && (forall|j: int|
            0 <= j < f ==> !tasks[ready[j] as int].is_idle),
    decreases n,
{
    if n > 0 {
        lemma_spec_first_idle_props(tasks, ready, n - 1);
    }
}

/// Waking a queue of waiters keeps the task table's length, touches only
/// slots that were blocked, and turns a touched slot ready with every
/// other field kept.
pub proof fn lemma_wake_all_preserves(tasks: Seq<TaskInner>, waiters: Seq<usize>)
    ensures
        spec_wake_all_tasks(tasks, waiters).len() == tasks.len(),
        forall|s: int|
            0 <= s < tasks.len() ==> spec_wake_all_tasks(tasks, waiters)[s] == tasks[s] || (
            tasks[s].state == TaskState::Blocked && spec_wake_all_tasks(tasks, waiters)[s] == (
            TaskInner { state: TaskState::Ready, in_wait_queue: false, ..tasks[s] })),
    decreases waiters.len(),
{
    if waiters.len() > 0 {
        let w = waiters[0];
        let t2 = spec_wake_one(tasks, w);
        lemma_wake_all_preserves(t2, waiters.drop_first());
        assert forall|s: int|
            0 <= s < tasks.len() implies spec_wake_all_tasks(tasks, waiters)[s] == tasks[s] || (
        tasks[s].state == TaskState::Blocked && spec_wake_all_tasks(tasks, waiters)[s] == (
        TaskInner { state: TaskState::Ready, in_wait_queue: false, ..tasks[s] })) by {
            if spec_wakes(tasks, w) && s == w as int {
                assert(t2[s] == (TaskInner {
                    state: TaskState::Ready,
                    in_wait_queue: false,
                    ..tasks[s]
                }));
            } else {
                assert(t2[s] == tasks[s]);
            }
        }
    }
}

/// Every slot a wake appends was a waiter, and stays within the table.
pub proof fn lemma_wake_all_added_bounds(tasks: Seq<TaskInner>, waiters: Seq<usize>)
    ensures
        forall|k: int|
            0 <= k < spec_wake_all_added(tasks, waiters).len() ==> waiters.contains(
                spec_wake_all_added(tasks, waiters)[k],
            ),
    decreases waiters.len(),
{
    if waiters.len() > 0 {
        let t2 = spec_wake_one(tasks, waiters[0]);
        lemma_wake_all_added_bounds(t2, waiters.drop_first());
        assert forall|k: int|
            0 <= k < spec_wake_all_added(tasks, waiters).len() implies waiters.contains(
            spec_wake_all_added(tasks, waiters)[k],
        ) by {
            let added = spec_wake_all_added(tasks, waiters);
            let rest = spec_wake_all_added(t2, waiters.drop_first());
            if spec_wakes(tasks, waiters[0]) {
                if k == 0 {
                    assert(added[0] == waiters[0]);
                } else {
                    assert(added[k] == rest[k - 1]);
                    assert(waiters.drop_first().contains(rest[k - 1]));
                    let i = choose|i: int|
                        0 <= i < waiters.drop_first().len() && waiters.drop_first()[i] == rest[k
                            - 1];
                    assert(waiters[i + 1] == rest[k - 1]);
                }
            } else {
                assert(waiters.drop_first().contains(rest[k]));
                let i = choose|i: int|
                    0 <= i < waiters.drop_first().len() && waiters.drop_first()[i] == rest[k];
                assert(waiters[i + 1] == rest[k]);
            }
        }
    }
}

/// A wake touches nobody else: a task whose slot is not among the waiters
/// keeps its whole state.
pub proof fn lemma_wake_all_untouched(tasks: Seq<TaskInner>, waiters: Seq<usize>)
    ensures
        forall|s: int|
            0 <= s < tasks.len() && !waiters.contains(s as usize) ==> spec_wake_all_tasks(
                tasks,
                waiters,
            )[s] == tasks[s],
    decreases waiters.len(),
{
    if waiters.len() > 0 {
        let w = waiters[0];
        let t2 = spec_wake_one(tasks, w);
        lemma_wake_all_untouched(t2, waiters.drop_first());
        assert forall|s: int|
            0 <= s < tasks.len() && !waiters.contains(s as usize) implies spec_wake_all_tasks(
            tasks,
            waiters,
        )[s] == tasks[s] by {
            assert(waiters[0] != s as usize);
            assert(t2[s] == tasks[s]);
            assert forall|j: int|
                0 <= j < waiters.drop_first().len() implies waiters.drop_first()[j] != (
            s as usize) by {
                assert(waiters[j + 1] == waiters.drop_first()[j]);
            }
            assert(!waiters.drop_first().contains(s as usize));
        }
    }
}

/// Every waiter that was still blocked when the wake began is ready when
/// it ends: a wake never leaves one of its targets blocked.
pub proof fn lemma_wake_all_wakes_blocked(tasks: Seq<TaskInner>, waiters: Seq<usize>)
    ensures
        forall|k: int|
            0 <= k < waiters.len() && spec_wakes(tasks, waiters[k]) ==> spec_wake_all_tasks(
                tasks,
                waiters,
            )[waiters[k] as int].state == TaskState::Ready,
    decreases waiters.len(),
{
    if waiters.len() > 0 {
        let w = waiters[0];
        let t2 = spec_wake_one(tasks, w);
        lemma_wake_all_wakes_blocked(t2, waiters.drop_first());
        lemma_wake_all_preserves(t2, waiters.drop_first());
        assert forall|k: int|
            0 <= k < waiters.len() && spec_wakes(tasks, waiters[k]) implies spec_wake_all_tasks(
            tasks,
            waiters,
        )[waiters[k] as int].state == TaskState::Ready by {
            let s = waiters[k] as int;
            if s == w as int {
                assert(t2[s].state == TaskState::Ready);
            } else {
                if t2[s].state == TaskState::Blocked {
                    assert(waiters.drop_first()[k - 1] == waiters[k]);
                    assert(spec_wakes(t2, waiters.drop_first()[k - 1]));
                } else {
                    assert(t2[s] == tasks[s]);
                }
            }
        }
    }
}

/// The slots a wake appends are pairwise distinct, in bounds, and were all
/// blocked beforehand: a task is woken at most once.
pub proof fn lemma_wake_all_added_distinct(tasks: Seq<TaskInner>, waiters: Seq<usize>)
    ensures
        forall|k: int|
            0 <= k < spec_wake_all_added(tasks, waiters).len() ==> spec_wake_all_added(
                tasks,
                waiters,
            )[k] < tasks.len() && tasks[spec_wake_all_added(tasks, waiters)[k] as int].state
                == TaskState::Blocked,
        forall|k1: int, k2: int|
            0 <= k1 < k2 < spec_wake_all_added(tasks, waiters).len() ==> spec_wake_all_added(
                tasks,
                waiters,
            )[k1] != spec_wake_all_added(tasks, waiters)[k2],
    decreases waiters.len(),
{
    if waiters.len() > 0 {
        let w = waiters[0];
        let t2 = spec_wake_one(tasks, w);
        lemma_wake_all_added_distinct(t2, waiters.drop_first());
        let added = spec_wake_all_added(tasks, waiters);
        let rest = spec_wake_all_added(t2, waiters.drop_first());
        assert forall|k: int|
            0 <= k < added.len() implies added[k] < tasks.len() && tasks[added[k] as int].state
            == TaskState::Blocked by {
            if spec_wakes(tasks, w) {
                if k > 0 {
                    assert(added[k] == rest[k - 1]);
                    assert(t2[rest[k - 1] as int].state == TaskState::Blocked);
                    assert(rest[k - 1] != w);
                }
            } else {
                assert(added[k] == rest[k]);
                assert(t2 == tasks);
            }
        }
        assert forall|k1: int, k2: int|
            0 <= k1 < k2 < added.len() implies added[k1] != added[k2] by {
            if spec_wakes(tasks, w) {
                if k1 == 0 {
                    assert(added[k2] == rest[k2 - 1]);
                    assert(t2[rest[k2 - 1] as int].state == TaskState::Blocked);
                    assert(t2[w as int].state == TaskState::Ready);
                } else {
                    assert(added[k1] == rest[k1 - 1] && added[k2] == rest[k2 - 1]);
                }
            } else {
                assert(added[k1] == rest[k1] && added[k2] == rest[k2]);
                assert(t2 == tasks);
            }
        }
    }
}

/// What a voluntary reschedule leaves behind, stated over the queue's
/// parts as they stood before: the running task goes back to ready at the
/// tail, the pick falls on that field, and the picked task runs. Picking
/// the yielding task itself changes nothing.
pub open spec fn spec_after_yield_parts(
    tasks: Seq<TaskInner>,
    ready: Seq<usize>,
    cur: usize,
    cpu: usize,
    result: AxRunQueue,
) -> bool {
    let ext_tasks = tasks.update(
        cur as int,
        (TaskInner { state: TaskState::Ready, ..tasks[cur as int] }),
    );
    let ext_ready = ready.push(cur);
    spec_pick(ext_tasks, ext_ready, cpu) matches Some(pos) && {
        let slot = ext_ready[pos];
        if slot == cur {
            result.current == cur && result.tasks@ == tasks && result.ready@ == ready
                && !result.lock_held
        } else {
            result.current == slot && result.tasks@ == ext_tasks.update(
                slot as int,
                (TaskInner { state: TaskState::Running, ..ext_tasks[slot as int] }),
            ) && result.ready@ == ext_ready.remove(pos) && result.lock_held
        }
    }
}

/// A per-CPU run queue. Task control blocks live in `tasks`, owned by the
/// queue; a task is named by its slot (its index there). Slots are never
/// reused: an exited task keeps its slot until the whole queue is dropped,
/// as the original keeps a control block until the last handle drops.
pub struct AxRunQueue {
    /// Every task created on this queue, by slot.
    pub tasks: Vec<TaskInner>,
    /// Slots of the tasks ready to run, in arrival order.
    pub ready: Vec<usize>,
    /// The slot of the task the CPU is executing.
    pub current: usize,
    /// The run-queue lock. Held across a context switch and released by
    /// the resumed side, not the acquirer.
    pub lock_held: bool,
    /// The CPU this queue schedules.
    pub cpu_id: usize,
}

impl AxRunQueue {
    /// Slots stay in bounds; the ready queue holds no slot twice, and
    /// every task it holds is in state `Ready`.
    pub open spec fn wf(self) -> bool {
        &&& self.current < self.tasks@.len()
        &&& self.cpu_id < SMP
        &&& forall|i: int| 0 <= i < self.ready@.len() ==> self.ready@[i] < self.tasks@.len()
        &&& forall|i: int, j: int|
            0 <= i < j < self.ready@.len() ==> self.ready@[i] != self.ready@[j]
        &&& forall|i: int|
            0 <= i < self.ready@.len() ==> self.tasks@[self.ready@[i] as int].state
                == TaskState::Ready
    }

    /// The task in the given ready position.
    pub open spec fn ready_task(self, j: int) -> TaskInner {
        self.tasks@[self.ready@[j] as int]
    }

    /// Whether some ready task other than the idle task could run on this
    /// CPU.
    pub open spec fn spec_has_runnable(self) -> bool {
        exists|j: int|
            0 <= j < self.ready@.len() && spec_eligible(self.ready_task(j), self.cpu_id)
                && !self.ready_task(j).is_idle
    }

    /// Whether the idle task sits in the ready queue.
    pub open spec fn spec_has_idle(self) -> bool {
        exists|j: int| 0 <= j < self.ready@.len() && self.ready_task(j).is_idle
    }

    /// A queue for one CPU, scheduling a single bootstrap task that adopts
    /// the calling execution context and is running from the start.
    pub fn new(cpu_id: usize, init_task: TaskInner) -> (r: Self)
        requires
            cpu_id < SMP,
            init_task.state == TaskState::Running,
        ensures
            r.wf(),
            r.tasks@ == seq![init_task],
            r.ready@ == Seq::<usize>::empty(),
            r.current == 0,
            !r.lock_held,
            r.cpu_id == cpu_id,
    {
        let mut tasks: Vec<TaskInner> = Vec::new();
        tasks.push(init_task);
        AxRunQueue { tasks, ready: Vec::new(), current: 0, lock_held: false, cpu_id }
    }

    /// Adds a ready task at the tail of the ready queue; its slot names it
    /// from now on.
    pub fn add_task(&mut self, task: TaskInner) -> (slot: usize)
        requires
            old(self).wf(),
            task.state == TaskState::Ready,
        ensures
            final(self).wf(),
            slot == old(self).tasks@.len(),
            final(self).tasks@ == old(self).tasks@.push(task),
            final(self).ready@ == old(self).ready@.push(slot),
            final(self).current == old(self).current,
            final(self).lock_held == old(self).lock_held,
            final(self).cpu_id == old(self).cpu_id,
    {
        let slot = self.tasks.len();
        self.tasks.push(task);
        self.ready.push(slot);
        slot
    }

    /// Acquires the run-queue lock.
    pub fn lock(&mut self)
        requires
            !old(self).lock_held,
        ensures
            *final(self) == (AxRunQueue { lock_held: true, ..*old(self) }),
    {
        self.lock_held = true;
    }

    /// Releases the run-queue lock. After a reschedule this is the resumed
    /// task's first action: the acquiring side was suspended holding it.
    pub fn finish_switch(&mut self)
        requires
            old(self).lock_held,
        ensures
            *final(self) == (AxRunQueue { lock_held: false, ..*old(self) }),
    {
        self.lock_held = false;
    }

    /// The running task, read-only.
    pub fn current_task(&self) -> (r: &TaskInner)
        requires
            self.wf(),
        ensures
            r == self.tasks@[self.current as int],
    {
        &self.tasks[self.current]
    }

    /// Marks the running task for rescheduling; the timer interrupt calls
    /// this when a quantum expires. The switch itself happens later, when
    /// the task reaches a point where preemption is allowed.
    pub fn scheduler_timer_tick(&mut self)
        requires
            old(self).wf(),
        ensures
            final(self).wf(),
            final(self).tasks@ == old(self).tasks@.update(
                old(self).current as int,
                (TaskInner { need_resched: true, ..old(self).tasks@[old(self).current as int] }),
            ),
            final(self).ready@ == old(self).ready@,
            final(self).current == old(self).current,
            final(self).lock_held == old(self).lock_held,
            final(self).cpu_id == old(self).cpu_id,
    {
        let t = &mut self.tasks[self.current];
        t.set_preempt_pending(true);
    }

    /// Chooses the ready position to run next: the earliest entry of
    /// maximum priority among the tasks allowed on this CPU, the idle task
    /// when no other candidate exists, nothing on an empty field.
    pub fn pick_next(&self) -> (r: Option<usize>)
        requires
            self.wf(),
        ensures
            match r {
                None => spec_pick(self.tasks@, self.ready@, self.cpu_id) is None,
                Some(pos) => spec_pick(self.tasks@, self.ready@, self.cpu_id) == Some(pos as int),
            },
    {
        let n = self.ready.len();
        let mut best: Option<usize> = None;
        let mut first_idle: Option<usize> = None;
        let mut i: usize = 0;
        while i < n
            invariant
                self.wf(),
                n == self.ready@.len(),
                i <= n,
                match best {
                    None => spec_best(self.tasks@, self.ready@, self.cpu_id, i as int) is None,
                    Some(b) => b < i && spec_best(self.tasks@, self.ready@, self.cpu_id, i as int)
                        == Some(b as int),
                },
                match first_idle {
                    None => spec_first_idle(self.tasks@, self.ready@, i as int) is None,
                    Some(f) => f < i && spec_first_idle(self.tasks@, self.ready@, i as int) == Some(
                        f as int,
                    ),
                },
            decreases n - i,
        {
            let slot = self.ready[i];
            let t = &self.tasks[slot];
            let eligible = ((t.cpu_set >> (self.cpu_id as u64)) & 1) == 1;
            if eligible && !t.is_idle {
                best = match best {
                    None => Some(i),
                    Some(b) => {
                        let bslot = self.ready[b];
                        if t.sched_status.priority > self.tasks[bslot].sched_status.priority {
                            Some(i)
                        } else {
                            Some(b)
                        }
                    },
                };
            }
            if first_idle.is_none() && t.is_idle {
                first_idle = Some(i);
            }
            i = i + 1;
        }
        match best {
            Some(b) => Some(b),
            None => first_idle,
        }
    }

    /// Takes the task in the given ready position out of the queue and
    /// makes it the running task.
    fn switch_to(&mut self, pos: usize)
        requires
            old(self).wf(),
            pos < old(self).ready@.len(),
        ensures
            final(self).wf(),
            final(self).current == old(self).ready@[pos as int],
            final(self).ready@ == old(self).ready@.remove(pos as int),
            final(self).tasks@ == old(self).tasks@.update(
                old(self).ready@[pos as int] as int,
                (TaskInner {
                    state: TaskState::Running,
                    ..old(self).tasks@[old(self).ready@[pos as int] as int]
                }),
            ),
            final(self).lock_held == old(self).lock_held,
            final(self).cpu_id == old(self).cpu_id,
    {
        let slot = self.ready.remove(pos);
        let t = &mut self.tasks[slot];
        t.set_state(TaskState::Running);
        self.current = slot;
    }

    /// Moves one blocked task back to ready, at the tail of the ready
    /// queue; a slot whose task is not blocked (a stale wait-queue entry)
    /// is left alone.
    pub fn unblock_task(&mut self, slot: usize)
        requires
            old(self).wf(),
        ensures
            final(self).wf(),
            final(self).tasks@ == spec_wake_one(old(self).tasks@, slot),
            final(self).ready@ == (if spec_wakes(old(self).tasks@, slot) {
                old(self).ready@.push(slot)
            } else {
                old(self).ready@
            }),
            final(self).current == old(self).current,
            final(self).lock_held == old(self).lock_held,
            final(self).cpu_id == old(self).cpu_id,
    {
        if slot < self.tasks.len() {
            let blocked = {
                let t = &self.tasks[slot];
                t.is_blocked()
            };
            if blocked {
                let t = &mut self.tasks[slot];
                t.set_state(TaskState::Ready);
                t.set_in_wait_queue(false);
                self.ready.push(slot);
            }
        }
    }

    /// Wakes a whole sequence of waiters in order: each one still blocked
    /// becomes ready and joins the ready queue tail; stale entries change
    /// nothing.
    pub fn unblock_all(&mut self, waiters: &Vec<usize>)
        requires
            old(self).wf(),
        ensures
            final(self).wf(),
            final(self).tasks@ == spec_wake_all_tasks(old(self).tasks@, waiters@),
            final(self).ready@ == old(self).ready@ + spec_wake_all_added(
                old(self).tasks@,
                waiters@,
            ),
            final(self).current == old(self).current,
            final(self).lock_held == old(self).lock_held,
            final(self).cpu_id == old(self).cpu_id,
    {
        let ghost orig_tasks = self.tasks@;
        let ghost orig_ready = self.ready@;
        let n = waiters.len();
        let mut k: usize = 0;
        while k < n
            invariant
                self.wf(),
                n == waiters@.len(),
                k <= n,
                self.tasks@ == spec_wake_all_tasks(orig_tasks, waiters@.take(k as int)),
                self.ready@ == orig_ready + spec_wake_all_added(
                    orig_tasks,
                    waiters@.take(k as int),
                ),
                self.current == old(self).current,
                self.lock_held == old(self).lock_held,
                self.cpu_id == old(self).cpu_id,
            decreases n - k,
        {
            let w = waiters[k];
            proof {
                lemma_wake_all_snoc(orig_tasks, waiters@.take(k as int), w);
                assert(waiters@.take(k as int).push(w) =~= waiters@.take(k as int + 1));
            }
            self.unblock_task(w);
            k = k + 1;
        }
        proof {
            assert(waiters@.take(n as int) =~= waiters@);
        }
    }

    /// What a voluntary reschedule leaves behind, given the queue as it
    /// stood before: the running task goes back to ready at the tail, the
    /// pick falls on that field, and the picked task runs. Picking the
    /// yielding task itself changes nothing.
    pub open spec fn spec_after_yield(self, result: AxRunQueue) -> bool {
        spec_after_yield_parts(self.tasks@, self.ready@, self.current, self.cpu_id, result)
    }

    /// Gives the CPU up voluntarily. The lock is taken, the running task
    /// rejoins the ready queue at the tail, and the best candidate runs.
    /// When another task is picked, the call returns with the lock still
    /// held — the resumed path releases it; when the yielding task is
    /// picked again there is no discontinuity and the lock comes back
    /// free.
    pub fn yield_current(&mut self)
        requires
            old(self).wf(),
            !old(self).lock_held,
            old(self).tasks@[old(self).current as int].state == TaskState::Running,
            spec_eligible(old(self).tasks@[old(self).current as int], old(self).cpu_id) || old(
                self,
            ).tasks@[old(self).current as int].is_idle,
        ensures
            final(self).wf(),
            final(self).cpu_id == old(self).cpu_id,
            old(self).spec_after_yield(*final(self)),
    {
        self.lock();
        let cur = self.current;
        proof {
            assert forall|i: int| 0 <= i < self.ready@.len() implies self.ready@[i] != cur by {
                assert(self.tasks@[self.ready@[i] as int].state == TaskState::Ready);
            }
        }
        {
            let t = &mut self.tasks[cur];
            t.set_state(TaskState::Ready);
        }
        self.ready.push(cur);
        let picked = self.pick_next();
        let pos = match picked {
            Some(p) => p,
            None => {
                proof {
                    let n = self.ready@.len() as int;
                    lemma_spec_best_props(self.tasks@, self.ready@, self.cpu_id, n);
                    lemma_spec_first_idle_props(self.tasks@, self.ready@, n);
                    assert(self.ready@[n - 1] == cur);
                }
                unreached()
            },
        };
        proof {
            let n = self.ready@.len() as int;
            lemma_spec_best_props(self.tasks@, self.ready@, self.cpu_id, n);
            lemma_spec_first_idle_props(self.tasks@, self.ready@, n);
        }
        let slot = self.ready[pos];
        if slot == cur {
            proof {
                assert forall|i: int| 0 <= i < self.ready@.len() - 1 implies self.ready@[i] != cur
                    by {
                    assert(self.ready@[i] == old(self).ready@[i]);
                }
                assert(pos as int == self.ready@.len() - 1);
            }
            self.switch_to(pos);
            self.finish_switch();
            proof {
                assert(self.tasks@[cur as int] == (TaskInner {
                    state: TaskState::Running,
                    ..(TaskInner {
                        state: TaskState::Ready,
                        ..old(self).tasks@[cur as int]
                    })
                }));
                assert(self.tasks@[cur as int] =~= old(self).tasks@[cur as int]);
                assert(self.tasks@ =~= old(self).tasks@);
                assert(self.ready@ =~= old(self).ready@);
            }
        } else {
            self.switch_to(pos);
        }
    }
}


/// What the trampoline decides when a task first gains the CPU, after it
/// has released the inherited lock; the platform layer performs it.
#[derive(Clone, Copy, PartialEq, Eq, Structural, Debug)]
pub enum TaskEntryAction {
    /// Run the stored entry closure, then exit with code 0.
    RunClosure,
    /// Enter user mode for the first time, with the kernel stack top and
    /// the address of the first trap frame; then exit with code 0 should
    /// control ever come back.
    EnterUser { kernel_sp: usize, frame_address: usize },
    /// No entry was stored: exit with code 0 at once.
    Exit,
}

impl AxRunQueue {
    /// What exiting leaves behind: the running task is exited with the
    /// given code, its join queue is drained and each waiter still blocked
    /// is made ready in queue order, and the pick over the grown ready
    /// field runs.
    pub open spec fn spec_after_exit(self, exit_code: i32, result: AxRunQueue) -> bool {
        let cur = self.current;
        result.tasks@.len() == self.tasks@.len() && result.tasks@[cur as int].wait_for_exit@
            == Seq::<usize>::empty() && {
            let t1 = self.tasks@.update(
                cur as int,
                (TaskInner {
                    state: TaskState::Exited,
                    exit_code: exit_code,
                    wait_for_exit: result.tasks@[cur as int].wait_for_exit,
                    ..self.tasks@[cur as int]
                }),
            );
            let waiters = self.tasks@[cur as int].wait_for_exit@;
            let t2 = spec_wake_all_tasks(t1, waiters);
            let r2 = self.ready@ + spec_wake_all_added(t1, waiters);
            spec_pick(t2, r2, self.cpu_id) matches Some(pos) && {
                let slot = r2[pos];
                result.current == slot && result.tasks@ == t2.update(
                    slot as int,
                    (TaskInner { state: TaskState::Running, ..t2[slot as int] }),
                ) && result.ready@ == r2.remove(pos) && result.lock_held
            }
        }
    }

    /// Ends the running task: stores the exit code, moves the task to
    /// `Exited`, wakes everything parked in its join queue in queue order,
    /// and hands the CPU to the next pick. The exit code stays readable
    /// forever; the state never leaves `Exited`. Returns with the lock
    /// held: the resumed path releases it.
    #[verifier::rlimit(50)]
    pub fn exit_current(&mut self, exit_code: i32)
        requires
            old(self).wf(),
            !old(self).lock_held,
            old(self).tasks@[old(self).current as int].state == TaskState::Running,
            !old(self).tasks@[old(self).current as int].is_idle,
            old(self).spec_has_runnable() || old(self).spec_has_idle(),
        ensures
            final(self).wf(),
            final(self).cpu_id == old(self).cpu_id,
            old(self).spec_after_exit(exit_code, *final(self)),
    {
        self.lock();
        let cur = self.current;
        proof {
            assert forall|i: int| 0 <= i < self.ready@.len() implies self.ready@[i] != cur by {
                assert(self.tasks@[self.ready@[i] as int].state == TaskState::Ready);
            }
        }
        let waiters = {
            let t = &mut self.tasks[cur];
            t.set_state(TaskState::Exited);
            t.exit_code = exit_code;
            t.wait_for_exit.take_all()
        };
        let ghost t1 = self.tasks@;
        let ghost w_seq = waiters@;
        proof {
            lemma_wake_all_preserves(t1, w_seq);
            lemma_wake_all_added_distinct(t1, w_seq);
        }
        self.unblock_all(&waiters);
        let ghost t2 = self.tasks@;
        let ghost r2 = self.ready@;
        proof {
            let n = r2.len() as int;
            lemma_spec_best_props(t2, r2, self.cpu_id, n);
            lemma_spec_first_idle_props(t2, r2, n);
            if old(self).spec_has_runnable() {
                let j = choose|j: int|
                    0 <= j < old(self).ready@.len() && spec_eligible(
                        old(self).ready_task(j),
                        old(self).cpu_id,
                    ) && !old(self).ready_task(j).is_idle;
                assert(old(self).tasks@[old(self).ready@[j] as int].state == TaskState::Ready);
                assert(r2[j] == old(self).ready@[j]);
                assert(r2[j] != cur);
                assert(t1[r2[j] as int] == old(self).tasks@[r2[j] as int]);
                assert(t2[r2[j] as int] == old(self).tasks@[r2[j] as int]);
                assert(!(spec_best(t2, r2, self.cpu_id, n) is None));
            } else {
                let j = choose|j: int|
                    0 <= j < old(self).ready@.len() && old(self).ready_task(j).is_idle;
                assert(old(self).tasks@[old(self).ready@[j] as int].state == TaskState::Ready);
                assert(r2[j] == old(self).ready@[j]);
                assert(r2[j] != cur);
                assert(t1[r2[j] as int] == old(self).tasks@[r2[j] as int]);
                assert(t2[r2[j] as int] == old(self).tasks@[r2[j] as int]);
                assert(!(spec_first_idle(t2, r2, n) is None));
            }
            assert(spec_pick(t2, r2, self.cpu_id) is Some);
        }
        let picked = self.pick_next();
        let pos = match picked {
            Some(p) => p,
            None => {
                unreached()
            },
        };
        proof {
            let n = r2.len() as int;
            lemma_spec_best_props(t2, r2, self.cpu_id, n);
            lemma_spec_first_idle_props(t2, r2, n);
            assert(pos < r2.len());
        }
        self.switch_to(pos);
        proof {
            let spec_t1 = old(self).tasks@.update(
                cur as int,
                (TaskInner {
                    state: TaskState::Exited,
                    exit_code: exit_code,
                    wait_for_exit: self.tasks@[cur as int].wait_for_exit,
                    ..old(self).tasks@[cur as int]
                }),
            );
            let slot = r2[pos as int];
            assert(t2[cur as int] == t1[cur as int]);
            if slot == cur {
                assert(self.tasks@[cur as int].wait_for_exit == t1[cur as int].wait_for_exit);
            } else {
                assert(self.tasks@[cur as int] == t2[cur as int]);
            }
            assert(spec_t1 =~= t1);
        }
    }

    /// What parking in `join` leaves behind: the running task goes blocked
    /// at the tail of the target's join queue, and the pick over the ready
    /// field (without it) runs.
    pub open spec fn spec_after_join_block(self, target: usize, result: AxRunQueue) -> bool {
        let cur = self.current;
        result.tasks@.len() == self.tasks@.len() && result.tasks@[target as int].wait_for_exit@
            == self.tasks@[target as int].wait_for_exit@.push(cur) && {
            let t1 = self.tasks@.update(
                cur as int,
                (TaskInner {
                    state: TaskState::Blocked,
                    in_wait_queue: true,
                    ..self.tasks@[cur as int]
                }),
            ).update(
                target as int,
                (TaskInner {
                    wait_for_exit: result.tasks@[target as int].wait_for_exit,
                    ..self.tasks@[target as int]
                }),
            );
            spec_pick(t1, self.ready@, self.cpu_id) matches Some(pos) && {
                let slot = self.ready@[pos];
                result.current == slot && result.tasks@ == t1.update(
                    slot as int,
                    (TaskInner { state: TaskState::Running, ..t1[slot as int] }),
                ) && result.ready@ == self.ready@.remove(pos) && result.lock_held
            }
        }
    }

    /// Waits for a task to exit. A target already exited yields its stored
    /// exit code at once, every time — the code never changes and the
    /// state never leaves `Exited`. Otherwise the caller parks on the
    /// target's join queue and the CPU goes to the next pick: the call
    /// returns `None` with the lock held, and the caller asks again after
    /// being woken.
    pub fn join(&mut self, target: usize) -> (r: Option<i32>)
        requires
            old(self).wf(),
            !old(self).lock_held,
            target < old(self).tasks@.len(),
            old(self).tasks@[old(self).current as int].state == TaskState::Running,
            old(self).tasks@[target as int].state != TaskState::Exited ==> target != old(
                self,
            ).current && (old(self).spec_has_runnable() || old(self).spec_has_idle()),
        ensures
            final(self).wf(),
            final(self).cpu_id == old(self).cpu_id,
            old(self).tasks@[target as int].state == TaskState::Exited ==> r == Some(
                old(self).tasks@[target as int].exit_code,
            ) && *final(self) == *old(self),
            old(self).tasks@[target as int].state != TaskState::Exited ==> r is None && old(
                self,
            ).spec_after_join_block(target, *final(self)),
    {
        let exited = {
            let t = &self.tasks[target];
            matches!(t.state, TaskState::Exited)
        };
        if exited {
            let t = &self.tasks[target];
            return Some(t.exit_code);
        }
        self.block_on_join(target);
        None
    }

    /// Moves the running task to `Blocked` and parks it at the tail of the
    /// target's join queue.
    fn park_current_on_join(&mut self, target: usize)
        requires
            old(self).wf(),
            target < old(self).tasks@.len(),
            target != old(self).current,
            old(self).tasks@[old(self).current as int].state == TaskState::Running,
        ensures
            final(self).wf(),
            final(self).tasks@ == old(self).tasks@.update(
                old(self).current as int,
                (TaskInner {
                    state: TaskState::Blocked,
                    in_wait_queue: true,
                    ..old(self).tasks@[old(self).current as int]
                }),
            ).update(
                target as int,
                (TaskInner {
                    wait_for_exit: final(self).tasks@[target as int].wait_for_exit,
                    ..old(self).tasks@[target as int]
                }),
            ),
            final(self).tasks@[target as int].wait_for_exit@ == old(
                self,
            ).tasks@[target as int].wait_for_exit@.push(old(self).current),
            final(self).ready@ == old(self).ready@,
            final(self).current == old(self).current,
            final(self).lock_held == old(self).lock_held,
            final(self).cpu_id == old(self).cpu_id,
    {
        let cur = self.current;
        proof {
            assert forall|i: int| 0 <= i < self.ready@.len() implies self.ready@[i] != cur by {
                assert(self.tasks@[self.ready@[i] as int].state == TaskState::Ready);
            }
        }
        {
            let t = &mut self.tasks[cur];
            t.set_state(TaskState::Blocked);
            t.set_in_wait_queue(true);
        }
        {
            let t = &mut self.tasks[target];
            t.wait_for_exit.push_back(cur);
        }
        proof {
            assert(self.tasks@ =~= old(self).tasks@.update(
                old(self).current as int,
                (TaskInner {
                    state: TaskState::Blocked,
                    in_wait_queue: true,
                    ..old(self).tasks@[old(self).current as int]
                }),
            ).update(
                target as int,
                (TaskInner {
                    wait_for_exit: self.tasks@[target as int].wait_for_exit,
                    ..old(self).tasks@[target as int]
                }),
            ));
        }
    }

    /// Parks the running task on the target's join queue and gives the CPU
    /// to the next pick. Returns with the lock held: the resumed path
    /// releases it.
    #[verifier::rlimit(100)]
    fn block_on_join(&mut self, target: usize)
        requires
            old(self).wf(),
            !old(self).lock_held,
            target < old(self).tasks@.len(),
            target != old(self).current,
            old(self).tasks@[old(self).current as int].state == TaskState::Running,
            old(self).spec_has_runnable() || old(self).spec_has_idle(),
        ensures
            final(self).wf(),
            final(self).cpu_id == old(self).cpu_id,
            old(self).spec_after_join_block(target, *final(self)),
    {
        self.lock();
        let cur = self.current;
        self.park_current_on_join(target);
        let ghost t1 = self.tasks@;
        let ghost r1 = self.ready@;
        proof {
            let n = r1.len() as int;
            lemma_spec_best_props(t1, r1, self.cpu_id, n);
            lemma_spec_first_idle_props(t1, r1, n);
            if old(self).spec_has_runnable() {
                let j = choose|j: int|
                    0 <= j < old(self).ready@.len() && spec_eligible(
                        old(self).ready_task(j),
                        old(self).cpu_id,
                    ) && !old(self).ready_task(j).is_idle;
                assert(old(self).tasks@[old(self).ready@[j] as int].state == TaskState::Ready);
                assert(r1[j] == old(self).ready@[j]);
                assert(r1[j] != cur);
                assert(t1[r1[j] as int].cpu_set == old(self).tasks@[r1[j] as int].cpu_set);
                assert(t1[r1[j] as int].is_idle == old(self).tasks@[r1[j] as int].is_idle);
                assert(!(spec_best(t1, r1, self.cpu_id, n) is None));
            } else {
                let j = choose|j: int|
                    0 <= j < old(self).ready@.len() && old(self).ready_task(j).is_idle;
                assert(old(self).tasks@[old(self).ready@[j] as int].state == TaskState::Ready);
                assert(r1[j] == old(self).ready@[j]);
                assert(r1[j] != cur);
                assert(t1[r1[j] as int].is_idle == old(self).tasks@[r1[j] as int].is_idle);
                assert(!(spec_first_idle(t1, r1, n) is None));
            }
            assert(spec_pick(t1, r1, self.cpu_id) is Some);
        }
        let picked = self.pick_next();
        let pos = match picked {
            Some(p) => p,
            None => {
                unreached()
            },
        };
        proof {
            let n = r1.len() as int;
            lemma_spec_best_props(t1, r1, self.cpu_id, n);
            lemma_spec_first_idle_props(t1, r1, n);
            assert(pos < r1.len());
        }
        self.switch_to(pos);
        proof {
            let spec_t1 = old(self).tasks@.update(
                cur as int,
                (TaskInner {
                    state: TaskState::Blocked,
                    in_wait_queue: true,
                    ..old(self).tasks@[cur as int]
                }),
            ).update(
                target as int,
                (TaskInner {
                    wait_for_exit: self.tasks@[target as int].wait_for_exit,
                    ..old(self).tasks@[target as int]
                }),
            );
            let slot = r1[pos as int];
            if slot == target {
                assert(self.tasks@[target as int].wait_for_exit == t1[target as int].wait_for_exit);
            } else {
                assert(self.tasks@[target as int] == t1[target as int]);
            }
            assert(spec_t1 =~= t1);
        }
    }

    /// What parking the running task leaves behind: it goes blocked and
    /// the pick over the ready field (without it) runs.
    pub open spec fn spec_after_block(self, result: AxRunQueue) -> bool {
        let cur = self.current;
        let t1 = self.tasks@.update(
            cur as int,
            (TaskInner {
                state: TaskState::Blocked,
                in_wait_queue: true,
                ..self.tasks@[cur as int]
            }),
        );
        spec_pick(t1, self.ready@, self.cpu_id) matches Some(pos) && {
            let slot = self.ready@[pos];
            result.current == slot && result.tasks@ == t1.update(
                slot as int,
                (TaskInner { state: TaskState::Running, ..t1[slot as int] }),
            ) && result.ready@ == self.ready@.remove(pos) && result.lock_held
        }
    }

    /// Parks the running task: takes the lock, marks the task blocked and
    /// on a wait queue, and hands the CPU to the next pick. The caller
    /// records the returned slot in the wait queue of its choosing; a
    /// notifier or the timeout driver later passes it to
    /// [`AxRunQueue::unblock_task`]. Returns with the lock held: the
    /// resumed path releases it.
    #[verifier::rlimit(100)]
    pub fn block_current(&mut self) -> (slot: usize)
        requires
            old(self).wf(),
            !old(self).lock_held,
            old(self).tasks@[old(self).current as int].state == TaskState::Running,
            old(self).spec_has_runnable() || old(self).spec_has_idle(),
        ensures
            final(self).wf(),
            final(self).cpu_id == old(self).cpu_id,
            slot == old(self).current,
            old(self).spec_after_block(*final(self)),
    {
        self.lock();
        let cur = self.current;
        proof {
            assert forall|i: int| 0 <= i < self.ready@.len() implies self.ready@[i] != cur by {
                assert(self.tasks@[self.ready@[i] as int].state == TaskState::Ready);
            }
        }
        {
            let t = &mut self.tasks[cur];
            t.set_state(TaskState::Blocked);
            t.set_in_wait_queue(true);
        }
        let ghost t1 = self.tasks@;
        let ghost r1 = self.ready@;
        proof {
            let n = r1.len() as int;
            lemma_spec_best_props(t1, r1, self.cpu_id, n);
            lemma_spec_first_idle_props(t1, r1, n);
            if old(self).spec_has_runnable() {
                let j = choose|j: int|
                    0 <= j < old(self).ready@.len() && spec_eligible(
                        old(self).ready_task(j),
                        old(self).cpu_id,
                    ) && !old(self).ready_task(j).is_idle;
                assert(old(self).tasks@[old(self).ready@[j] as int].state == TaskState::Ready);
                assert(r1[j] == old(self).ready@[j]);
                assert(r1[j] != cur);
                assert(!(spec_best(t1, r1, self.cpu_id, n) is None));
            } else {
                let j = choose|j: int|
                    0 <= j < old(self).ready@.len() && old(self).ready_task(j).is_idle;
                assert(old(self).tasks@[old(self).ready@[j] as int].state == TaskState::Ready);
                assert(r1[j] == old(self).ready@[j]);
                assert(r1[j] != cur);
                assert(!(spec_first_idle(t1, r1, n) is None));
            }
            assert(spec_pick(t1, r1, self.cpu_id) is Some);
        }
        let picked = self.pick_next();
        let pos = match picked {
            Some(p) => p,
            None => {
                unreached()
            },
        };
        proof {
            let n = r1.len() as int;
            lemma_spec_best_props(t1, r1, self.cpu_id, n);
            lemma_spec_first_idle_props(t1, r1, n);
            assert(pos < r1.len());
        }
        self.switch_to(pos);
        cur
    }

    /// The first code a freshly started task runs, entered with the
    /// run-queue lock still held from the switch that started it: releases
    /// that lock first, then decides how the task begins. A task of the
    /// kernel process runs its entry closure; a task of a user process
    /// enters user mode over its first trap frame; a task with no entry
    /// exits at once. The entry is consumed: a second start never sees it.
    pub fn task_entry(&mut self) -> (r: TaskEntryAction)
        requires
            old(self).wf(),
            old(self).lock_held,
            ({
                let t = old(self).tasks@[old(self).current as int];
                t.entry_present && t.process_id != KERNEL_PROCESS_ID ==> (t.kstack matches Some(
                    k,
                ) && k.wf() && k.spec_size() >= crate::TRAP_FRAME_SIZE)
            }),
        ensures
            final(self).wf(),
            !final(self).lock_held,
            final(self).ready@ == old(self).ready@,
            final(self).current == old(self).current,
            final(self).cpu_id == old(self).cpu_id,
            final(self).tasks@ == old(self).tasks@.update(
                old(self).current as int,
                (TaskInner {
                    entry_present: false,
                    ..old(self).tasks@[old(self).current as int]
                }),
            ),
            ({
                let t = old(self).tasks@[old(self).current as int];
                r == (if !t.entry_present {
                    TaskEntryAction::Exit
                } else if t.process_id == KERNEL_PROCESS_ID {
                    TaskEntryAction::RunClosure
                } else {
                    let k = t.kstack->Some_0;
                    TaskEntryAction::EnterUser {
                        kernel_sp: (k.spec_base() + k.spec_size()) as usize,
                        frame_address: (k.spec_base() + k.spec_size()
                            - crate::TRAP_FRAME_SIZE) as usize,
                    }
                })
            }),
    {
        self.finish_switch();
        let cur = self.current;
        let entry_present = {
            let t = &self.tasks[cur];
            t.entry_present
        };
        let action = if !entry_present {
            TaskEntryAction::Exit
        } else {
            let t = &self.tasks[cur];
            if t.get_process_id() == KERNEL_PROCESS_ID {
                TaskEntryAction::RunClosure
            } else {
                let kernel_sp = match t.get_kernel_stack_top() {
                    Some(top) => top,
                    None => unreached(),
                };
                let frame_address = t.get_first_trap_frame();
                TaskEntryAction::EnterUser { kernel_sp, frame_address }
            }
        };
        {
            let t = &mut self.tasks[cur];
            t.entry_present = false;
        }
        proof {
            assert(self.tasks@ =~= old(self).tasks@.update(
                old(self).current as int,
                (TaskInner {
                    entry_present: false,
                    ..old(self).tasks@[old(self).current as int]
                }),
            ));
        }
        action
    }

    /// Marks the running task for rescheduling and reschedules at once:
    /// the synchronous reaction when the preemption gate opens.
    pub fn preempt_resched(&mut self)
        requires
            old(self).wf(),
            !old(self).lock_held,
            old(self).tasks@[old(self).current as int].state == TaskState::Running,
            spec_eligible(old(self).tasks@[old(self).current as int], old(self).cpu_id) || old(
                self,
            ).tasks@[old(self).current as int].is_idle,
        ensures
            final(self).wf(),
            final(self).cpu_id == old(self).cpu_id,
            spec_after_yield_parts(
                old(self).tasks@.update(
                    old(self).current as int,
                    (TaskInner {
                        need_resched: false,
                        ..old(self).tasks@[old(self).current as int]
                    }),
                ),
                old(self).ready@,
                old(self).current,
                old(self).cpu_id,
                *final(self),
            ),
    {
        {
            let t = &mut self.tasks[self.current];
            t.set_preempt_pending(false);
        }
        self.yield_current();
    }

    /// The check made at every point where preemption becomes allowed
    /// again: when the running task has a switch marked and no
    /// non-preemptible section open, reschedule at once; in every other
    /// case, change nothing.
    pub fn current_check_preempt_pending(&mut self)
        requires
            old(self).wf(),
            !old(self).lock_held,
            old(self).tasks@[old(self).current as int].state == TaskState::Running,
            spec_eligible(old(self).tasks@[old(self).current as int], old(self).cpu_id) || old(
                self,
            ).tasks@[old(self).current as int].is_idle,
        ensures
            final(self).wf(),
            final(self).cpu_id == old(self).cpu_id,
            !(old(self).tasks@[old(self).current as int].need_resched && old(self).tasks@[old(
                self,
            ).current as int].preempt_disable_count == 0) ==> *final(self) == *old(self),
            (old(self).tasks@[old(self).current as int].need_resched && old(self).tasks@[old(
                self,
            ).current as int].preempt_disable_count == 0) ==> spec_after_yield_parts(
                old(self).tasks@.update(
                    old(self).current as int,
                    (TaskInner {
                        need_resched: false,
                        ..old(self).tasks@[old(self).current as int]
                    }),
                ),
                old(self).ready@,
                old(self).current,
                old(self).cpu_id,
                *final(self),
            ),
    {
        let fire = {
            let t = &self.tasks[self.current];
            t.need_resched && t.can_preempt(0)
        };
        if fire {
            self.preempt_resched();
        }
    }

    /// Ends a non-preemptible section for the running task. Closing the
    /// outermost section while a switch is both requested and marked
    /// performs it at once; closing any nested section, or closing without
    /// a marked switch, only lowers the depth.
    pub fn enable_preempt(&mut self, resched: bool)
        requires
            old(self).wf(),
            !old(self).lock_held,
            old(self).tasks@[old(self).current as int].preempt_disable_count >= 1,
            old(self).tasks@[old(self).current as int].state == TaskState::Running,
            spec_eligible(old(self).tasks@[old(self).current as int], old(self).cpu_id) || old(
                self,
            ).tasks@[old(self).current as int].is_idle,
        ensures
            final(self).wf(),
            final(self).cpu_id == old(self).cpu_id,
            !crate::task::spec_preempt_fires(
                old(self).tasks@[old(self).current as int],
                resched,
            ) ==> final(self).tasks@ == old(self).tasks@.update(
                old(self).current as int,
                (TaskInner {
                    preempt_disable_count: (old(self).tasks@[old(
                        self,
                    ).current as int].preempt_disable_count - 1) as usize,
                    ..old(self).tasks@[old(self).current as int]
                }),
            ) && final(self).ready@ == old(self).ready@ && final(self).current == old(self).current
                && final(self).lock_held == old(self).lock_held,
            crate::task::spec_preempt_fires(
                old(self).tasks@[old(self).current as int],
                resched,
            ) ==> spec_after_yield_parts(
                old(self).tasks@.update(
                    old(self).current as int,
                    (TaskInner {
                        preempt_disable_count: 0,
                        need_resched: false,
                        ..old(self).tasks@[old(self).current as int]
                    }),
                ),
                old(self).ready@,
                old(self).current,
                old(self).cpu_id,
                *final(self),
            ),
    {
        let cur = self.current;
        let fire = {
            let t = &mut self.tasks[cur];
            t.enable_preempt(resched)
        };
        if fire {
            {
                let t = &mut self.tasks[cur];
                t.set_preempt_pending(false);
            }
            proof {
                assert(self.tasks@ =~= old(self).tasks@.update(
                    old(self).current as int,
                    (TaskInner {
                        preempt_disable_count: 0,
                        need_resched: false,
                        ..old(self).tasks@[old(self).current as int]
                    }),
                ));
            }
            self.yield_current();
        }
    }
}

/// The per-CPU slot naming the running task: the handle the rest of the
/// kernel uses to answer "who is running now" without searching the run
/// queue. The slot and id are read out of the queue; ids are unique, so
/// comparing ids stands in for the original's pointer identity.
#[derive(Clone, Copy, PartialEq, Eq, Structural, Debug)]
pub struct CurrentTask {
    /// The running task's slot in the run queue.
    pub slot: usize,
    /// The running task's id.
    pub id: TaskId,
}

impl CurrentTask {
    /// The running task's handle, read from the run queue.
    pub fn get(rq: &AxRunQueue) -> (r: CurrentTask)
        requires
            rq.wf(),
        ensures
            r.slot == rq.current,
            r.id == rq.tasks@[rq.current as int].id,
    {
        CurrentTask { slot: rq.current, id: rq.tasks[rq.current].id() }
    }

    /// The id the handle names.
    pub fn as_task_ref(&self) -> (r: &TaskId)
        ensures
            *r == self.id,
    {
        &self.id
    }

    /// A copy of the id, for handing to another holder.
    pub fn clone(&self) -> (r: TaskId)
        ensures
            r == self.id,
    {
        self.id
    }

    /// Whether this handle names the given task. Ids are never reused, so
    /// equal ids mean the same task.
    pub fn ptr_eq(&self, other: &TaskId) -> (r: bool)
        ensures
            r == (self.id == *other),
    {
        self.id == *other
    }
}

} // verus!
