use axtask::futex::futex;
use axtask::futex::futex_requeue;
use axtask::futex::futex_wake;
use axtask::futex::ErrorNo;
use axtask::futex::FutexFlags;
use axtask::futex::FutexTable;
use axtask::run_queue::AxRunQueue;
use axtask::task::SchedPolicy;
use axtask::task::SchedStatus;
use axtask::task::TaskIdAllocator;
use axtask::task::TaskInner;
use axtask::task::TaskState;

const FUTEX_WAIT: i32 = 0;
const FUTEX_WAKE: i32 = 1;
const FUTEX_REQUEUE: i32 = 3;

struct World {
    rq: AxRunQueue,
    table: FutexTable,
    alloc: TaskIdAllocator,
}

fn fresh_world() -> World {
    let mut alloc = TaskIdAllocator::new();
    let init = TaskInner::new_init(&mut alloc, "main".to_string());
    let mut rq = AxRunQueue::new(0, init);
    let idle = TaskInner::new(&mut alloc, "idle".to_string(), 0x10_0000, 4096, 0, 0, 1, 0, false);
    rq.add_task(idle);
    World { rq, table: FutexTable::new(), alloc }
}

/// Spawns a high-priority task, runs it, and parks it on `addr` by a
/// matching WAIT; control returns to the spawner. Answers the task's slot.
fn park_waiter(w: &mut World, name: &str, base: usize, addr: usize) -> usize {
    let mut t =
        TaskInner::new(&mut w.alloc, name.to_string(), base, 4096, 0, 0, 1, 0, false);
    t.set_sched_status(SchedStatus { policy: SchedPolicy::SCHED_FIFO, priority: 9 });
    let slot = w.rq.add_task(t);
    let spawner = w.rq.current;
    w.rq.yield_current();
    assert_eq!(w.rq.current, slot);
    w.rq.finish_switch();
    // The waiter itself issues the WAIT with a matching expected value.
    let r = futex(&mut w.rq, &mut w.table, addr, FUTEX_WAIT, 42, 0, 0, 0, true, 42);
    assert_eq!(r, Ok(0));
    assert_eq!(w.rq.tasks[slot].state, TaskState::Blocked);
    w.rq.finish_switch();
    // The spawner has priority over idle, so it resumes here.
    assert_eq!(w.rq.current, spawner);
    slot
}

#[test]
fn wait_fails_eagain_exactly_on_changed_value() {
    let mut w = fresh_world();
    // The word differs from the expectation: fail at once, block nothing.
    let r = futex(&mut w.rq, &mut w.table, 0x1000, FUTEX_WAIT, 42, 0, 0, 0, true, 41);
    assert_eq!(r, Err(ErrorNo::EAGAIN));
    assert_eq!(w.rq.tasks[w.rq.current].state, TaskState::Running);
    // The word matches: no EAGAIN; the caller parks.
    let cur = w.rq.current;
    let r = futex(&mut w.rq, &mut w.table, 0x1000, FUTEX_WAIT, 42, 0, 0, 0, true, 42);
    assert_eq!(r, Ok(0));
    assert_eq!(w.rq.tasks[cur].state, TaskState::Blocked);
}

#[test]
fn wait_faults_on_unresolved_address() {
    let mut w = fresh_world();
    let r = futex(&mut w.rq, &mut w.table, 0x1000, FUTEX_WAIT, 42, 0, 0, 0, false, 0);
    assert_eq!(r, Err(ErrorNo::EFAULT));
}

#[test]
fn unknown_op_is_invalid() {
    let mut w = fresh_world();
    let r = futex(&mut w.rq, &mut w.table, 0x1000, 99, 0, 0, 0, 0, true, 0);
    assert_eq!(r, Err(ErrorNo::EINVAL));
    assert!(matches!(FutexFlags::new(99), FutexFlags::UNSUPPORTED));
}

#[test]
fn wake_frees_min_of_n_and_queue_len_in_fifo_order() {
    let mut w = fresh_world();
    let addr = 0x1000;
    let t1 = park_waiter(&mut w, "T1", 0x20_0000, addr);
    let t2 = park_waiter(&mut w, "T2", 0x30_0000, addr);
    let t3 = park_waiter(&mut w, "T3", 0x40_0000, addr);

    // Wake two: exactly the two earliest-registered waiters become ready.
    let count = futex_wake(&mut w.rq, &mut w.table, addr, 2);
    assert_eq!(count, 2);
    assert_eq!(w.rq.tasks[t1].state, TaskState::Ready);
    assert_eq!(w.rq.tasks[t2].state, TaskState::Ready);
    assert_eq!(w.rq.tasks[t3].state, TaskState::Blocked);

    // Asking for more than remain is capped at the queue length.
    let count = futex_wake(&mut w.rq, &mut w.table, addr, 100);
    assert_eq!(count, 1);
    assert_eq!(w.rq.tasks[t3].state, TaskState::Ready);

    // An empty queue wakes nothing.
    assert_eq!(futex_wake(&mut w.rq, &mut w.table, addr, 1), 0);
}

#[test]
fn wake_one_wakes_exactly_first_waiter() {
    // Two tasks wait on the same address in order; waking one readies
    // exactly the first while the second stays blocked.
    let mut w = fresh_world();
    let addr = 0x2000;
    let t1 = park_waiter(&mut w, "T1", 0x20_0000, addr);
    let t2 = park_waiter(&mut w, "T2", 0x30_0000, addr);

    let r = futex(&mut w.rq, &mut w.table, addr, FUTEX_WAKE, 1, 0, 0, 0, true, 0);
    assert_eq!(r, Ok(1));
    assert_eq!(w.rq.tasks[t1].state, TaskState::Ready);
    assert_eq!(w.rq.tasks[t2].state, TaskState::Blocked);
}

#[test]
fn requeue_wakes_then_moves_in_order() {
    // Waiters [A, B, C, D] on src; wake 1, move 2: A wakes, B and C move
    // to dst in order, D stays on src.
    let mut w = fresh_world();
    let src = 0x1000;
    let dst = 0x2000;
    let a = park_waiter(&mut w, "A", 0x20_0000, src);
    let b = park_waiter(&mut w, "B", 0x30_0000, src);
    let c = park_waiter(&mut w, "C", 0x40_0000, src);
    let d = park_waiter(&mut w, "D", 0x50_0000, src);

    futex_requeue(&mut w.rq, &mut w.table, 1, 2, src, dst);
    assert_eq!(w.rq.tasks[a].state, TaskState::Ready);
    assert_eq!(w.rq.tasks[b].state, TaskState::Blocked);
    assert_eq!(w.rq.tasks[c].state, TaskState::Blocked);
    assert_eq!(w.rq.tasks[d].state, TaskState::Blocked);

    // D is the only task still queued on src.
    assert_eq!(futex_wake(&mut w.rq, &mut w.table, src, 100), 1);
    assert_eq!(w.rq.tasks[d].state, TaskState::Ready);

    // B and C sit on dst, in their original order: waking one readies B.
    assert_eq!(futex_wake(&mut w.rq, &mut w.table, dst, 1), 1);
    assert_eq!(w.rq.tasks[b].state, TaskState::Ready);
    assert_eq!(w.rq.tasks[c].state, TaskState::Blocked);
    assert_eq!(futex_wake(&mut w.rq, &mut w.table, dst, 1), 1);
    assert_eq!(w.rq.tasks[c].state, TaskState::Ready);
}

#[test]
fn requeue_through_dispatcher_returns_zero() {
    let mut w = fresh_world();
    let src = 0x1000;
    let dst = 0x2000;
    let a = park_waiter(&mut w, "A", 0x20_0000, src);
    let b = park_waiter(&mut w, "B", 0x30_0000, src);
    // val carries the wake count, timeout carries the move count.
    let r = futex(&mut w.rq, &mut w.table, src, FUTEX_REQUEUE, 1, 1, dst, 0, true, 0);
    assert_eq!(r, Ok(0));
    assert_eq!(w.rq.tasks[a].state, TaskState::Ready);
    assert_eq!(w.rq.tasks[b].state, TaskState::Blocked);
    assert_eq!(futex_wake(&mut w.rq, &mut w.table, dst, 1), 1);
    assert_eq!(w.rq.tasks[b].state, TaskState::Ready);
}

#[test]
fn idle_runs_only_when_nothing_else_ready() {
    // Main parks on a futex with only idle left: idle gets the CPU and
    // keeps it until main is woken, after which main is preferred.
    let mut w = fresh_world();
    let main_slot = w.rq.current;
    let idle = 1; // fresh_world adds idle right after the bootstrap task
    assert!(w.rq.tasks[idle].is_idle);

    let r = futex(&mut w.rq, &mut w.table, 0x3000, FUTEX_WAIT, 7, 0, 0, 0, true, 7);
    assert_eq!(r, Ok(0));
    assert_eq!(w.rq.current, idle);
    w.rq.finish_switch();

    // Idle yields with nothing else ready: it keeps the CPU.
    w.rq.yield_current();
    assert_eq!(w.rq.current, idle);
    assert!(!w.rq.lock_held);

    // Main wakes; the next yield prefers it over idle.
    assert_eq!(futex_wake(&mut w.rq, &mut w.table, 0x3000, 1), 1);
    w.rq.yield_current();
    assert_eq!(w.rq.current, main_slot);
    w.rq.finish_switch();
}

#[test]
fn requeue_onto_same_address_rotates_the_rest() {
    // Waiters [A, B, C] on one address; wake 1, move 1 with the same
    // address twice: A wakes, and of the rest [B, C], B moves to the tail
    // — the queue becomes [C, B].
    let mut w = fresh_world();
    let addr = 0x1000;
    let a = park_waiter(&mut w, "A", 0x20_0000, addr);
    let b = park_waiter(&mut w, "B", 0x30_0000, addr);
    let c = park_waiter(&mut w, "C", 0x40_0000, addr);

    futex_requeue(&mut w.rq, &mut w.table, 1, 1, addr, addr);
    assert_eq!(w.rq.tasks[a].state, TaskState::Ready);
    assert_eq!(w.rq.tasks[b].state, TaskState::Blocked);
    assert_eq!(w.rq.tasks[c].state, TaskState::Blocked);

    // The rotated order: C now wakes before B.
    assert_eq!(futex_wake(&mut w.rq, &mut w.table, addr, 1), 1);
    assert_eq!(w.rq.tasks[c].state, TaskState::Ready);
    assert_eq!(w.rq.tasks[b].state, TaskState::Blocked);
    assert_eq!(futex_wake(&mut w.rq, &mut w.table, addr, 1), 1);
    assert_eq!(w.rq.tasks[b].state, TaskState::Ready);
}

#[test]
fn error_codes_match_errno_values() {
    assert_eq!(ErrorNo::EAGAIN.code(), -11);
    assert_eq!(ErrorNo::EFAULT.code(), -14);
    assert_eq!(ErrorNo::EINVAL.code(), -22);
}
