//! Task identity and the task control block.
//!
//! A task is a schedulable unit: an id, a run state, a kernel stack, a saved
//! context, scheduling class and priority, a CPU-affinity mask, and the
//! bookkeeping the scheduler and the task itself maintain. Ids come from an
//! explicit allocator so that every id handed out is fresh and larger than
//! all earlier ones.
use vstd::prelude::*;

use crate::trap::TrapFrame;
use crate::wait_queue::WaitQueue;
use crate::KERNEL_PROCESS_ID;
use crate::SMP;
use crate::TRAP_FRAME_SIZE;

verus! {

/// A unique identifier for a task.
#[derive(Debug, Clone, Copy, Eq, PartialEq, Structural)]
pub struct TaskId(u64);

/// Hands out task ids: process-wide, strictly increasing, never reused
/// while the counter lives. The ghost history records every id issued.
pub struct TaskIdAllocator {
    next: u64,
    issued: Ghost<Seq<u64>>,
}

/// The first id ever handed out.
pub const FIRST_TASK_ID: u64 = 1;

/// Where the counter restarts on a reset: the ids below it stay reserved
/// for the bootstrap tasks.
pub const RESET_TASK_ID: u64 = 5;

impl TaskIdAllocator {
    /// Every issued id lies below the counter, and they are strictly
    /// increasing in order of issue.
    pub closed spec fn wf(self) -> bool {
        (forall|i: int| 0 <= i < self.issued@.len() ==> self.issued@[i] < self.next)
            && (forall|i: int, j: int|
            0 <= i < j < self.issued@.len() ==> self.issued@[i] < self.issued@[j])
    }

    /// The value the next id will take.
    pub closed spec fn spec_next(self) -> u64 {
        self.next
    }

    /// Every id issued so far, in order of issue.
    pub closed spec fn spec_issued(self) -> Seq<u64> {
        self.issued@
    }

    /// A fresh allocator, counting from the first id.
    pub fn new() -> (r: Self)
        ensures
            r.wf(),
            r.spec_next() == FIRST_TASK_ID,
            r.spec_issued() == Seq::<u64>::empty(),
    {
        TaskIdAllocator { next: FIRST_TASK_ID, issued: Ghost(Seq::empty()) }
    }
}

impl TaskId {
    /// The id held.
    pub closed spec fn spec_id(self) -> u64 {
        self.0
    }

    /// Issues a fresh id: the counter's value, after which the counter
    /// steps past it, so no later call can hand the same id out again.
    pub fn new(alloc: &mut TaskIdAllocator) -> (r: TaskId)
        requires
            old(alloc).wf(),
            old(alloc).spec_next() < u64::MAX,
        ensures
            final(alloc).wf(),
            r.spec_id() == old(alloc).spec_next(),
            final(alloc).spec_next() == old(alloc).spec_next() + 1,
            final(alloc).spec_issued() == old(alloc).spec_issued().push(r.spec_id()),
    {
        let id = alloc.next;
        alloc.next = alloc.next + 1;
        proof {
            alloc.issued@ = alloc.issued@.push(id);
        }
        TaskId(id)
    }

    /// The id as a plain integer.
    pub fn as_u64(&self) -> (r: u64)
        ensures
            r == self.spec_id(),
    {
        self.0
    }

    /// Resets the counter to the reserved baseline, keeping the first few
    /// ids for the bootstrap tasks. The issue history starts afresh.
    pub fn clear(alloc: &mut TaskIdAllocator)
        ensures
            final(alloc).wf(),
            final(alloc).spec_next() == RESET_TASK_ID,
            final(alloc).spec_issued() == Seq::<u64>::empty(),
    {
        alloc.next = RESET_TASK_ID;
        proof {
            alloc.issued@ = Seq::empty();
        }
    }
}

/// For any sequence of task creations from one allocator, the ids handed
/// out are pairwise distinct and strictly increasing in creation order.
pub proof fn lemma_task_ids_strictly_increasing(alloc: TaskIdAllocator, i: int, j: int)
    requires
        alloc.wf(),
        0 <= i < j < alloc.spec_issued().len(),
    ensures
        alloc.spec_issued()[i] < alloc.spec_issued()[j],
{
}

/// The run states a task can be in.
#[derive(Debug, Clone, Copy, Eq, PartialEq, Structural)]
pub enum TaskState {
    /// Executing on a CPU right now.
    Running,
    /// Runnable, parked in the ready queue.
    Ready,
    /// Parked on a wait queue or futex until notified.
    Blocked,
    /// Finished; its exit code is set and joiners have been woken.
    Exited,
}

/// The small integer each state is stored as.
pub open spec fn spec_state_to_u8(s: TaskState) -> u8 {
    match s {
        TaskState::Running => 1,
        TaskState::Ready => 2,
        TaskState::Blocked => 3,
        TaskState::Exited => 4,
    }
}

impl TaskState {
    /// The state a stored integer encodes; only 1 through 4 occur.
    pub fn from_u8(state: u8) -> (r: TaskState)
        requires
            1 <= state <= 4,
        ensures
            spec_state_to_u8(r) == state,
    {
        if state == 1 {
            TaskState::Running
        } else if state == 2 {
            TaskState::Ready
        } else if state == 3 {
            TaskState::Blocked
        } else {
            TaskState::Exited
        }
    }

    /// The integer a state is stored as.
    pub fn as_u8(&self) -> (r: u8)
        ensures
            r == spec_state_to_u8(*self),
    {
        match self {
            TaskState::Running => 1,
            TaskState::Ready => 2,
            TaskState::Blocked => 3,
            TaskState::Exited => 4,
        }
    }
}

/// Each state has its own stored integer, between 1 and 4: reading the
/// integer back always recovers the state that was stored.
pub proof fn lemma_state_encoding(s1: TaskState, s2: TaskState)
    ensures
        1 <= spec_state_to_u8(s1) <= 4,
        spec_state_to_u8(s1) == spec_state_to_u8(s2) ==> s1 == s2,
{
}

/// The policy a task is scheduled under.
#[derive(Debug, Clone, Copy, Eq, PartialEq, Structural)]
#[allow(non_camel_case_types)]
pub enum SchedPolicy {
    /// The default time-sharing scheduler.
    SCHED_OTHER,
    /// The first-in, first-out scheduler.
    SCHED_FIFO,
    /// The round-robin scheduler.
    SCHED_RR,
    /// The batch scheduler.
    SCHED_BATCH,
    /// The idle-task scheduler.
    SCHED_IDLE,
    /// An unsupported policy value.
    SCHED_UNKNOWN,
}

/// The policy a numeric policy value selects; unsupported values map to
/// the unknown sentinel.
pub open spec fn spec_policy_from_usize(policy: usize) -> SchedPolicy {
    if policy == 0 {
        SchedPolicy::SCHED_OTHER
    } else if policy == 1 {
        SchedPolicy::SCHED_FIFO
    } else if policy == 2 {
        SchedPolicy::SCHED_RR
    } else if policy == 3 {
        SchedPolicy::SCHED_BATCH
    } else if policy == 5 {
        SchedPolicy::SCHED_IDLE
    } else {
        SchedPolicy::SCHED_UNKNOWN
    }
}

/// The numeric value a policy reports; the unknown sentinel reports -1.
pub open spec fn spec_policy_to_isize(policy: SchedPolicy) -> isize {
    match policy {
        SchedPolicy::SCHED_OTHER => 0,
        SchedPolicy::SCHED_FIFO => 1,
        SchedPolicy::SCHED_RR => 2,
        SchedPolicy::SCHED_BATCH => 3,
        SchedPolicy::SCHED_IDLE => 5,
        SchedPolicy::SCHED_UNKNOWN => (-1) as isize,
    }
}

impl From<usize> for SchedPolicy {
    fn from(policy: usize) -> (r: Self) {
        if policy == 0 {
            SchedPolicy::SCHED_OTHER
        } else if policy == 1 {
            SchedPolicy::SCHED_FIFO
        } else if policy == 2 {
            SchedPolicy::SCHED_RR
        } else if policy == 3 {
            SchedPolicy::SCHED_BATCH
        } else if policy == 5 {
            SchedPolicy::SCHED_IDLE
        } else {
            SchedPolicy::SCHED_UNKNOWN
        }
    }
}

impl vstd::std_specs::convert::FromSpecImpl<usize> for SchedPolicy {
    open spec fn obeys_from_spec() -> bool {
        true
    }

    open spec fn from_spec(policy: usize) -> SchedPolicy {
        spec_policy_from_usize(policy)
    }
}

impl From<SchedPolicy> for isize {
    fn from(policy: SchedPolicy) -> (r: Self) {
        match policy {
            SchedPolicy::SCHED_OTHER => 0,
            SchedPolicy::SCHED_FIFO => 1,
            SchedPolicy::SCHED_RR => 2,
            SchedPolicy::SCHED_BATCH => 3,
            SchedPolicy::SCHED_IDLE => 5,
            SchedPolicy::SCHED_UNKNOWN => -1,
        }
    }
}

impl vstd::std_specs::convert::FromSpecImpl<SchedPolicy> for isize {
    open spec fn obeys_from_spec() -> bool {
        true
    }

    open spec fn from_spec(policy: SchedPolicy) -> isize {
        spec_policy_to_isize(policy)
    }
}

/// The scheduling class and priority a task carries.
#[derive(Debug, Clone, Copy, Eq, PartialEq, Structural)]
pub struct SchedStatus {
    /// The scheduling policy.
    pub policy: SchedPolicy,
    /// The numeric priority within the policy; larger is stronger.
    pub priority: usize,
}

/// A task's kernel stack: a fixed, 16-byte-aligned memory region owned by
/// its control block. The platform layer allocates the region (allocation
/// failure halts the kernel, there is no degraded mode) and hands its base
/// here.
pub struct TaskStack {
    base: usize,
    size: usize,
}

impl TaskStack {
    /// The base address of the region.
    pub closed spec fn spec_base(self) -> usize {
        self.base
    }

    /// The size of the region in bytes.
    pub closed spec fn spec_size(self) -> usize {
        self.size
    }

    /// A stack always starts 16-byte aligned and ends within the address
    /// space.
    pub open spec fn wf(self) -> bool {
        self.spec_base() % 16 == 0 && self.spec_base() + self.spec_size() <= usize::MAX
    }

    /// Adopts an allocated region as a kernel stack.
    pub fn allocate(base: usize, size: usize) -> (r: Self)
        requires
            base % 16 == 0,
            base + size <= usize::MAX,
        ensures
            r.wf(),
            r.spec_base() == base,
            r.spec_size() == size,
    {
        TaskStack { base, size }
    }

    /// The address one past the region: stacks grow downwards from here.
    pub fn top(&self) -> (r: usize)
        requires
            self.wf(),
        ensures
            r == self.spec_base() + self.spec_size(),
    {
        self.base + self.size
    }

    /// The address of the first trap frame pushed on this stack, one frame
    /// below the top, so nested kernel traps never clobber it.
    pub fn get_first_trap_frame(&self) -> (r: usize)
        requires
            self.wf(),
            self.spec_size() >= TRAP_FRAME_SIZE,
        ensures
            r == self.spec_base() + self.spec_size() - TRAP_FRAME_SIZE,
    {
        self.top() - TRAP_FRAME_SIZE
    }
}

/// The saved execution context the switch primitive preserves across a
/// reschedule: where to resume, on which stack, and the thread-local base.
/// The platform layer saves and restores the full register set; these are
/// the fields the scheduler itself decides.
#[derive(Debug, Clone, Copy, Eq, PartialEq, Structural)]
pub struct TaskContext {
    /// The address execution resumes at.
    pub pc: usize,
    /// The stack pointer execution resumes on.
    pub sp: usize,
    /// The thread-local-storage base.
    pub tls: usize,
}

impl TaskContext {
    /// An empty context.
    pub fn new() -> (r: Self)
        ensures
            r.pc == 0,
            r.sp == 0,
            r.tls == 0,
    {
        TaskContext { pc: 0, sp: 0, tls: 0 }
    }

    /// Points the context at an entry address and a stack.
    pub fn init(&mut self, pc: usize, sp: usize, tls: usize)
        ensures
            final(self).pc == pc,
            final(self).sp == sp,
            final(self).tls == tls,
    {
        self.pc = pc;
        self.sp = sp;
        self.tls = tls;
    }
}

/// Rounds a size up to a whole number of 4 KiB pages.
pub fn align_up_4k(n: usize) -> (r: usize)
    requires
        n + 0xfff <= usize::MAX,
    ensures
        r % 4096 == 0,
        n <= r < n + 4096,
{
    proof {
        vstd::arithmetic::div_mod::lemma_fundamental_div_mod((n + 0xfff) as int, 4096);
        assert((((n + 0xfff) as int / 4096) * 4096) % 4096 == 0) by (nonlinear_arith);
    }
    ((n + 0xfff) / 4096) * 4096
}

/// The task control block: everything the scheduler and the task itself
/// keep per task. Only the scheduler (between transitions) or the owning
/// task (while running) ever writes one, so the fields need no lock: the
/// kernel owns each block exclusively and hands out `&mut` access.
#[verifier::ext_equal]
pub struct TaskInner {
    /// The task's unique id.
    pub id: TaskId,
    /// The task's name; the name `idle` marks the idle task.
    pub name: String,
    /// Whether this is the idle task, recognised by name at creation.
    pub is_idle: bool,
    /// Whether this is the bootstrap task adopted from the running CPU.
    pub is_init: bool,
    /// Whether an entry closure is stored, to be consumed exactly once on
    /// first run. The closure itself lives with the platform layer.
    pub entry_present: bool,
    /// The run state.
    pub state: TaskState,
    /// Whether the task is parked on some wait queue.
    pub in_wait_queue: bool,
    /// Whether the task sits in the timer list awaiting a deadline.
    pub in_timer_list: bool,
    /// Set when a quantum expires; honoured at the next point where
    /// preemption is allowed.
    pub need_resched: bool,
    /// Depth of nested non-preemptible sections; preemption fires only at
    /// zero.
    pub preempt_disable_count: usize,
    /// The exit code, meaningful once the task has exited.
    pub exit_code: i32,
    /// Joiners parked here until the exit code is set.
    pub wait_for_exit: WaitQueue,
    /// The kernel stack; absent only for the bootstrap task.
    pub kstack: Option<TaskStack>,
    /// The saved execution context used at the next switch-in.
    pub ctx: TaskContext,
    /// The first trap frame, written before the first entry to user mode.
    pub trap_frame: TrapFrame,
    /// The page-table token of the owning process.
    pub page_table_token: usize,
    /// The id of the owning process.
    pub process_id: u64,
    /// Whether the task is the main thread of its process.
    pub is_leader: bool,
    /// Where to store the child thread id on clone.
    pub set_child_tid: u64,
    /// Where to clear the child thread id on exit.
    pub clear_child_tid: u64,
    /// The CPU-affinity bitmask: bit `c` set lets CPU `c` run the task.
    pub cpu_set: u64,
    /// The scheduling class and priority.
    pub sched_status: SchedStatus,
    /// Whether to signal the parent process when the task exits.
    pub send_sigchld_when_exit: bool,
}

/// Whether ending a non-preemptible section fires the scheduler: only
/// closing the outermost section does, and only with a switch both
/// requested by the caller and marked on the task.
pub open spec fn spec_preempt_fires(t: TaskInner, resched: bool) -> bool {
    t.preempt_disable_count == 1 && resched && t.need_resched
}

/// The affinity mask stored for a request of `mask` over `set_size` bytes:
/// the requested length in bits is clamped to the number of CPUs, and the
/// mask is truncated to that many low bits.
pub open spec fn spec_cpu_mask(mask: usize, set_size: usize) -> usize {
    let len = if set_size * 4 > SMP {
        SMP as int
    } else {
        set_size * 4
    };
    mask & (((1usize << len as usize) - 1) as usize)
}

impl TaskInner {
    /// A blank control block: state `Ready`, every flag clear, priority 1
    /// under the first-in-first-out class, every CPU allowed, owned by the
    /// kernel process.
    fn new_common(id: TaskId, name: String) -> (r: Self)
        ensures
            r.id == id,
            r.name@ == name@,
            !r.is_idle,
            !r.is_init,
            !r.entry_present,
            r.state == TaskState::Ready,
            !r.in_wait_queue,
            !r.in_timer_list,
            !r.need_resched,
            r.preempt_disable_count == 0,
            r.exit_code == 0,
            r.wait_for_exit@ == Seq::<usize>::empty(),
            r.kstack is None,
            r.ctx == (TaskContext { pc: 0, sp: 0, tls: 0 }),
            r.trap_frame.wf(),
            r.page_table_token == 0,
            r.process_id == KERNEL_PROCESS_ID,
            !r.is_leader,
            r.set_child_tid == 0,
            r.clear_child_tid == 0,
            r.cpu_set == ((1usize << SMP) - 1) as u64,
            r.sched_status == (SchedStatus { policy: SchedPolicy::SCHED_FIFO, priority: 1 }),
            !r.send_sigchld_when_exit,
    {
        proof {
            assert(1usize << 4 == 16) by (bit_vector);
            assert(SMP == 4);
        }
        TaskInner {
            id,
            name,
            is_idle: false,
            is_init: false,
            entry_present: false,
            state: TaskState::Ready,
            in_wait_queue: false,
            in_timer_list: false,
            need_resched: false,
            preempt_disable_count: 0,
            exit_code: 0,
            wait_for_exit: WaitQueue::new(),
            kstack: None,
            ctx: TaskContext::new(),
            trap_frame: TrapFrame::new(0),
            page_table_token: 0,
            process_id: KERNEL_PROCESS_ID,
            is_leader: false,
            set_child_tid: 0,
            clear_child_tid: 0,
            cpu_set: ((1usize << SMP) - 1) as u64,
            sched_status: SchedStatus { policy: SchedPolicy::SCHED_FIFO, priority: 1 },
            send_sigchld_when_exit: false,
        }
    }

    /// Creates a new task, ready to run: a fresh id, a kernel stack of the
    /// requested size rounded up to whole pages, and a context that will
    /// begin at the trampoline entry with its stack pointer one trap frame
    /// below the stack top. A task named `idle` becomes the idle task. The
    /// platform layer allocates the stack region, boxes the entry closure,
    /// and supplies the trampoline address.
    pub fn new(
        alloc: &mut TaskIdAllocator,
        name: String,
        stack_base: usize,
        stack_size: usize,
        entry_pc: usize,
        tls: usize,
        process_id: u64,
        page_table_token: usize,
        sig_child: bool,
    ) -> (r: Self)
        requires
            old(alloc).wf(),
            old(alloc).spec_next() < u64::MAX,
            stack_size >= 1,
            stack_base % 16 == 0,
            stack_base + stack_size + 4096 <= usize::MAX,
        ensures
            final(alloc).wf(),
            final(alloc).spec_next() == old(alloc).spec_next() + 1,
            final(alloc).spec_issued() == old(alloc).spec_issued().push(r.id.spec_id()),
            r.id.spec_id() == old(alloc).spec_next(),
            r.name@ == name@,
            r.is_idle == (name@ == "idle"@),
            !r.is_init,
            r.entry_present,
            r.state == TaskState::Ready,
            !r.in_wait_queue,
            !r.need_resched,
            r.preempt_disable_count == 0,
            r.exit_code == 0,
            r.wait_for_exit@ == Seq::<usize>::empty(),
            r.kstack matches Some(k) && k.wf() && k.spec_base() == stack_base
                && k.spec_size() % 4096 == 0 && stack_size <= k.spec_size() < stack_size + 4096
                && r.ctx.sp == k.spec_base() + k.spec_size() - TRAP_FRAME_SIZE,
            r.ctx.pc == entry_pc,
            r.ctx.tls == tls,
            r.process_id == process_id,
            r.page_table_token == page_table_token,
            r.send_sigchld_when_exit == sig_child,
            !r.is_leader,
            r.set_child_tid == 0,
            r.clear_child_tid == 0,
            !r.in_timer_list,
            r.trap_frame.wf(),
            r.cpu_set == ((1usize << SMP) - 1) as u64,
            r.sched_status == (SchedStatus { policy: SchedPolicy::SCHED_FIFO, priority: 1 }),
    {
        let id = TaskId::new(alloc);
        let mut t = Self::new_common(id, name);
        let aligned = align_up_4k(stack_size);
        let kstack = TaskStack::allocate(stack_base, aligned);
        t.entry_present = true;
        t.send_sigchld_when_exit = sig_child;
        t.process_id = process_id;
        t.page_table_token = page_table_token;
        let sp = kstack.top() - TRAP_FRAME_SIZE;
        t.ctx.init(entry_pc, sp, tls);
        t.kstack = Some(kstack);
        if is_idle_name(&t.name) {
            t.is_idle = true;
        }
        t
    }

    /// Adopts the calling execution context as a task: the bootstrap task
    /// of a CPU, already running, with no stack or entry of its own. A
    /// bootstrap task named `idle` is also the idle task.
    pub fn new_init(alloc: &mut TaskIdAllocator, name: String) -> (r: Self)
        requires
            old(alloc).wf(),
            old(alloc).spec_next() < u64::MAX,
        ensures
            final(alloc).wf(),
            final(alloc).spec_next() == old(alloc).spec_next() + 1,
            final(alloc).spec_issued() == old(alloc).spec_issued().push(r.id.spec_id()),
            r.id.spec_id() == old(alloc).spec_next(),
            r.name@ == name@,
            r.is_idle == (name@ == "idle"@),
            r.is_init,
            !r.entry_present,
            r.state == TaskState::Running,
            !r.in_wait_queue,
            !r.need_resched,
            r.preempt_disable_count == 0,
            r.exit_code == 0,
            r.wait_for_exit@ == Seq::<usize>::empty(),
            r.kstack is None,
            r.process_id == KERNEL_PROCESS_ID,
            r.page_table_token == 0,
            !r.is_leader,
            r.set_child_tid == 0,
            r.clear_child_tid == 0,
            !r.in_timer_list,
            r.trap_frame.wf(),
            !r.send_sigchld_when_exit,
            r.cpu_set == ((1usize << SMP) - 1) as u64,
            r.sched_status == (SchedStatus { policy: SchedPolicy::SCHED_FIFO, priority: 1 }),
    {
        let id = TaskId::new(alloc);
        let mut t = Self::new_common(id, name);
        t.is_init = true;
        t.state = TaskState::Running;
        if is_idle_name(&t.name) {
            t.is_idle = true;
        }
        t
    }

    /// The task's id.
    pub fn id(&self) -> (r: TaskId)
        ensures
            r == self.id,
    {
        self.id
    }

    /// The task's name.
    pub fn name(&self) -> (r: &String)
        ensures
            r@ == self.name@,
    {
        &self.name
    }

    /// Renames the task.
    pub fn set_name(&mut self, name: String)
        ensures
            *final(self) == (TaskInner { name, ..*old(self) }),
    {
        self.name = name;
    }

    /// The run state.
    pub fn state(&self) -> (r: TaskState)
        ensures
            r == self.state,
    {
        self.state
    }

    /// Sets the run state.
    pub fn set_state(&mut self, state: TaskState)
        ensures
            *final(self) == (TaskInner { state, ..*old(self) }),
    {
        self.state = state;
    }

    /// Whether the task is running now.
    pub fn is_running(&self) -> (r: bool)
        ensures
            r == (self.state == TaskState::Running),
    {
        matches!(self.state, TaskState::Running)
    }

    /// Whether the task is ready to run.
    pub fn is_ready(&self) -> (r: bool)
        ensures
            r == (self.state == TaskState::Ready),
    {
        matches!(self.state, TaskState::Ready)
    }

    /// Whether the task is blocked.
    pub fn is_blocked(&self) -> (r: bool)
        ensures
            r == (self.state == TaskState::Blocked),
    {
        matches!(self.state, TaskState::Blocked)
    }

    /// Whether this is the bootstrap task.
    pub fn is_init(&self) -> (r: bool)
        ensures
            r == self.is_init,
    {
        self.is_init
    }

    /// Whether this is the idle task.
    pub fn is_idle(&self) -> (r: bool)
        ensures
            r == self.is_idle,
    {
        self.is_idle
    }

    /// Whether the task is parked on a wait queue.
    pub fn in_wait_queue(&self) -> (r: bool)
        ensures
            r == self.in_wait_queue,
    {
        self.in_wait_queue
    }

    /// Marks whether the task is parked on a wait queue.
    pub fn set_in_wait_queue(&mut self, in_wait_queue: bool)
        ensures
            *final(self) == (TaskInner { in_wait_queue, ..*old(self) }),
    {
        self.in_wait_queue = in_wait_queue;
    }

    /// Whether the task sits in the timer list.
    pub fn in_timer_list(&self) -> (r: bool)
        ensures
            r == self.in_timer_list,
    {
        self.in_timer_list
    }

    /// Marks whether the task sits in the timer list.
    pub fn set_in_timer_list(&mut self, in_timer_list: bool)
        ensures
            *final(self) == (TaskInner { in_timer_list, ..*old(self) }),
    {
        self.in_timer_list = in_timer_list;
    }

    /// Marks or clears the pending reschedule.
    pub fn set_preempt_pending(&mut self, pending: bool)
        ensures
            *final(self) == (TaskInner { need_resched: pending, ..*old(self) }),
    {
        self.need_resched = pending;
    }

    /// Whether the non-preemptible depth equals the given count, i.e.
    /// preemption at that depth is allowed.
    pub fn can_preempt(&self, current_disable_count: usize) -> (r: bool)
        ensures
            r == (self.preempt_disable_count == current_disable_count),
    {
        self.preempt_disable_count == current_disable_count
    }

    /// Enters a non-preemptible section.
    pub fn disable_preempt(&mut self)
        requires
            old(self).preempt_disable_count < usize::MAX,
        ensures
            *final(self) == (TaskInner {
                preempt_disable_count: (old(self).preempt_disable_count + 1) as usize,
                ..*old(self)
            }),
    {
        self.preempt_disable_count = self.preempt_disable_count + 1;
    }

    /// Leaves a non-preemptible section. Returns whether the scheduler
    /// must now be invoked: exactly when the outermost section closes
    /// with a switch both requested and marked — never while a section
    /// stays open.
    pub fn enable_preempt(&mut self, resched: bool) -> (fire: bool)
        requires
            old(self).preempt_disable_count >= 1,
        ensures
            *final(self) == (TaskInner {
                preempt_disable_count: (old(self).preempt_disable_count - 1) as usize,
                ..*old(self)
            }),
            fire == spec_preempt_fires(*old(self), resched),
    {
        let was = self.preempt_disable_count;
        self.preempt_disable_count = self.preempt_disable_count - 1;
        was == 1 && resched && self.need_resched
    }

    /// Stores the child-thread-id address for clone.
    pub fn set_child_tid(&mut self, tid: usize)
        ensures
            *final(self) == (TaskInner { set_child_tid: tid as u64, ..*old(self) }),
    {
        self.set_child_tid = tid as u64;
    }

    /// Stores the address whose content is cleared when the task exits.
    pub fn set_clear_child_tid(&mut self, tid: usize)
        ensures
            *final(self) == (TaskInner { clear_child_tid: tid as u64, ..*old(self) }),
    {
        self.clear_child_tid = tid as u64;
    }

    /// The address whose content is cleared when the task exits.
    pub fn get_clear_child_tid(&self) -> (r: usize)
        ensures
            r == self.clear_child_tid as usize,
    {
        self.clear_child_tid as usize
    }

    /// The page-table token of the owning process.
    pub fn get_page_table_token(&self) -> (r: usize)
        ensures
            r == self.page_table_token,
    {
        self.page_table_token
    }

    /// The id of the owning process.
    pub fn get_process_id(&self) -> (r: u64)
        ensures
            r == self.process_id,
    {
        self.process_id
    }

    /// Sets the owning process.
    pub fn set_process_id(&mut self, process_id: u64)
        ensures
            *final(self) == (TaskInner { process_id, ..*old(self) }),
    {
        self.process_id = process_id;
    }

    /// Marks whether the task is the main thread of its process.
    pub fn set_leader(&mut self, is_lead: bool)
        ensures
            *final(self) == (TaskInner { is_leader: is_lead, ..*old(self) }),
    {
        self.is_leader = is_lead;
    }

    /// Whether the task is the main thread of its process.
    pub fn is_leader(&self) -> (r: bool)
        ensures
            r == self.is_leader,
    {
        self.is_leader
    }

    /// The top of the kernel stack, if the task owns one.
    pub fn get_kernel_stack_top(&self) -> (r: Option<usize>)
        requires
            self.kstack matches Some(k) ==> k.wf(),
        ensures
            self.kstack matches Some(k) ==> r == Some((k.spec_base() + k.spec_size()) as usize),
            self.kstack is None ==> r is None,
    {
        if let Some(kstack) = &self.kstack {
            return Some(kstack.top());
        }
        None
    }

    /// The address of the first trap frame on the kernel stack; only a
    /// task with a stack has one.
    pub fn get_first_trap_frame(&self) -> (r: usize)
        requires
            self.kstack matches Some(k) && k.wf() && k.spec_size() >= TRAP_FRAME_SIZE,
        ensures
            self.kstack matches Some(k) ==> r == k.spec_base() + k.spec_size() - TRAP_FRAME_SIZE,
    {
        if let Some(kstack) = &self.kstack {
            return kstack.get_first_trap_frame();
        }
        unreached()
    }

    /// Stores the task's first trap frame.
    pub fn set_trap_context(&mut self, trap_frame: TrapFrame)
        requires
            trap_frame.wf(),
        ensures
            final(self).trap_frame.same_frame(trap_frame),
            final(self).trap_frame.wf(),
            *final(self) == (TaskInner { trap_frame: final(self).trap_frame, ..*old(self) }),
    {
        self.trap_frame = trap_frame;
    }

    /// Stores the CPU-affinity mask. `set_size` is the byte length of the
    /// requested mask; the mask is kept only up to the configured number
    /// of CPUs — a longer request is silently truncated to that length,
    /// never rejected.
    pub fn set_cpu_set(&mut self, mask: usize, set_size: usize)
        requires
            set_size * 4 <= usize::MAX,
        ensures
            *final(self) == (TaskInner {
                cpu_set: spec_cpu_mask(mask, set_size) as u64,
                ..*old(self)
            }),
    {
        let len = if set_size * 4 > SMP {
            SMP
        } else {
            set_size * 4
        };
        proof {
            assert(len <= 4);
            assert(1usize << len >= 1) by (bit_vector)
                requires len <= 4usize;
        }
        let now_mask = mask & ((1usize << len) - 1);
        self.cpu_set = now_mask as u64;
    }

    /// The CPU-affinity mask.
    pub fn get_cpu_set(&self) -> (r: usize)
        ensures
            r == self.cpu_set as usize,
    {
        self.cpu_set as usize
    }

    /// Sets the scheduling class and priority.
    pub fn set_sched_status(&mut self, status: SchedStatus)
        ensures
            *final(self) == (TaskInner { sched_status: status, ..*old(self) }),
    {
        self.sched_status = status;
    }

    /// The scheduling class and priority.
    pub fn get_sched_status(&self) -> (r: SchedStatus)
        ensures
            r == self.sched_status,
    {
        self.sched_status
    }

    /// The saved context the switch primitive will restore.
    pub fn get_ctx(&self) -> (r: &TaskContext)
        ensures
            r == self.ctx,
    {
        &self.ctx
    }

    /// Whether to signal the parent when the task exits.
    pub fn get_sig_child(&self) -> (r: bool)
        ensures
            r == self.send_sigchld_when_exit,
    {
        self.send_sigchld_when_exit
    }

    /// Sets whether to signal the parent when the task exits.
    pub fn set_sig_child(&mut self, sig_child: bool)
        ensures
            *final(self) == (TaskInner { send_sigchld_when_exit: sig_child, ..*old(self) }),
    {
        self.send_sigchld_when_exit = sig_child;
    }

    /// Whether the owning process is blocked by an in-progress shared-
    /// address-space fork; the process layer supplies the check.
    pub fn is_vfork<C: VforkCheck>(&self, check: &C) -> bool {
        check.check_vfork(self.get_process_id())
    }
}

/// Ending a non-preemptible section invokes the scheduler exactly once:
/// when the outermost section closes with a switch requested and marked.
/// While any section stays open, a marked switch never fires.
pub proof fn lemma_preemption_gating(t: TaskInner, resched: bool)
    ensures
        t.preempt_disable_count != 1 ==> !spec_preempt_fires(t, resched),
        spec_preempt_fires(t, resched) <==> (t.preempt_disable_count == 1 && resched
            && t.need_resched),
{
}

/// Requesting an affinity mask longer than the configured number of CPUs
/// behaves identically to requesting exactly that number: both clamp to
/// the same stored mask.
pub proof fn lemma_affinity_clamp(mask: usize, set_size: usize)
    requires
        set_size * 4 > SMP,
    ensures
        spec_cpu_mask(mask, set_size) == spec_cpu_mask(mask, (SMP / 4) as usize),
{
}

/// Whether a name names the idle task.
fn is_idle_name(name: &String) -> (r: bool)
    ensures
        r == (name@ == "idle"@),
{
    let idle: String = "idle".to_owned();
    *name == idle
}

/// Checks whether a process is blocked by an in-progress fork that shares
/// its address space; the process layer above supplies the answer.
pub trait VforkCheck {
    /// Whether the given process is currently blocked by such a fork.
    fn check_vfork(&self, process_id: u64) -> bool;
}

} // verus!
