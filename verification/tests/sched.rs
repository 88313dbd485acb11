use axtask::run_queue::AxRunQueue;
use axtask::run_queue::CurrentTask;
use axtask::run_queue::TaskEntryAction;
use axtask::task::SchedPolicy;
use axtask::task::SchedStatus;
use axtask::task::TaskId;
use axtask::task::TaskIdAllocator;
use axtask::task::TaskInner;
use axtask::task::TaskState;
use axtask::SMP;

fn fresh_rq() -> (AxRunQueue, TaskIdAllocator) {
    let mut alloc = TaskIdAllocator::new();
    let init = TaskInner::new_init(&mut alloc, "main".to_string());
    (AxRunQueue::new(0, init), alloc)
}

fn spawn(rq: &mut AxRunQueue, alloc: &mut TaskIdAllocator, name: &str, base: usize) -> usize {
    let t = TaskInner::new(alloc, name.to_string(), base, 4096, 0x1000, 0, 1, 0, false);
    rq.add_task(t)
}

#[test]
fn affinity_clamp_matches_exact_size() {
    // A mask length beyond the configured CPUs behaves exactly like the
    // clamped length: the mask is truncated to the configured bits.
    let mut alloc = TaskIdAllocator::new();
    let mut a = TaskInner::new_init(&mut alloc, "a".to_string());
    let mut b = TaskInner::new_init(&mut alloc, "b".to_string());
    let mask = 0xffff;
    a.set_cpu_set(mask, 100); // 100 * 4 > SMP
    b.set_cpu_set(mask, SMP / 4); // exactly SMP bits
    assert_eq!(a.get_cpu_set(), b.get_cpu_set());
    assert_eq!(a.get_cpu_set(), mask & ((1 << SMP) - 1));
    // A short mask keeps all of its bits.
    let mut c = TaskInner::new_init(&mut alloc, "c".to_string());
    c.set_cpu_set(7, 2);
    assert_eq!(c.get_cpu_set(), 7);
}

#[test]
fn preemption_gating_counts() {
    let mut alloc = TaskIdAllocator::new();
    let mut t = TaskInner::new_init(&mut alloc, "t".to_string());
    t.set_preempt_pending(true);
    t.disable_preempt();
    t.disable_preempt();
    // Leaving the inner of two nested sections must not switch.
    assert!(!t.enable_preempt(true));
    assert!(t.can_preempt(1));
    // Decrement from 1 to 0 with resched requested and pending: fires.
    assert!(t.enable_preempt(true));
    assert!(t.can_preempt(0));
    // At zero-from-one without a pending flag: does not fire.
    t.disable_preempt();
    t.set_preempt_pending(false);
    assert!(!t.enable_preempt(true));
}

#[test]
fn spawn_run_and_join_returns_exit_code() {
    // Create the idle task, then task A whose entry (played by this test)
    // increments a counter and exits; joining A yields 0 afterwards.
    let (mut rq, mut alloc) = fresh_rq();
    let _idle = spawn(&mut rq, &mut alloc, "idle", 0x10_0000);
    let slot_a = spawn(&mut rq, &mut alloc, "A", 0x20_0000);
    let mut counter = 0u32;

    rq.yield_current();
    assert_eq!(rq.current, slot_a);
    assert_eq!(rq.tasks[slot_a].state, TaskState::Running);
    assert!(rq.lock_held);
    let action = rq.task_entry();
    assert_eq!(action, TaskEntryAction::RunClosure);
    assert!(!rq.lock_held);
    counter += 1; // A's entry body
    rq.exit_current(0);
    rq.finish_switch();

    assert_eq!(rq.tasks[slot_a].state, TaskState::Exited);
    assert_eq!(rq.join(slot_a), Some(0));
    assert_eq!(counter, 1);
    // Joining again is idempotent: the same code comes back.
    assert_eq!(rq.join(slot_a), Some(0));
}

#[test]
fn join_blocks_until_exit_then_returns_code() {
    let (mut rq, mut alloc) = fresh_rq();
    let _idle = spawn(&mut rq, &mut alloc, "idle", 0x10_0000);
    let slot_a = spawn(&mut rq, &mut alloc, "A", 0x20_0000);
    let main_slot = rq.current;

    // Main joins A before A has exited: it parks and A runs.
    assert_eq!(rq.join(slot_a), None);
    assert_eq!(rq.tasks[main_slot].state, TaskState::Blocked);
    assert_eq!(rq.current, slot_a);
    rq.finish_switch();

    // A exits with 7; main wakes and reads the code.
    rq.exit_current(7);
    rq.finish_switch();
    assert_eq!(rq.tasks[main_slot].state, TaskState::Running);
    assert_eq!(rq.current, main_slot);
    assert_eq!(rq.join(slot_a), Some(7));
    assert_eq!(rq.join(slot_a), Some(7));
}

#[test]
fn yield_keeps_best_candidate_running() {
    // With only the idle task ready besides the yielder, the yielder is
    // still the best candidate and keeps the CPU; no discontinuity, so
    // the lock comes back free.
    let (mut rq, mut alloc) = fresh_rq();
    let _idle = spawn(&mut rq, &mut alloc, "idle", 0x10_0000);
    let main_slot = rq.current;
    rq.yield_current();
    assert_eq!(rq.current, main_slot);
    assert!(!rq.lock_held);
    assert_eq!(rq.tasks[main_slot].state, TaskState::Running);
}

#[test]
fn priority_selection_prefers_highest_then_earliest() {
    let (mut rq, mut alloc) = fresh_rq();
    let _idle = spawn(&mut rq, &mut alloc, "idle", 0x10_0000);
    let mut lo = TaskInner::new(&mut alloc, "lo".to_string(), 0x20_0000, 4096, 0, 0, 1, 0, false);
    lo.set_sched_status(SchedStatus { policy: SchedPolicy::SCHED_FIFO, priority: 1 });
    let mut hi1 = TaskInner::new(&mut alloc, "hi1".to_string(), 0x30_0000, 4096, 0, 0, 1, 0, false);
    hi1.set_sched_status(SchedStatus { policy: SchedPolicy::SCHED_FIFO, priority: 9 });
    let mut hi2 = TaskInner::new(&mut alloc, "hi2".to_string(), 0x40_0000, 4096, 0, 0, 1, 0, false);
    hi2.set_sched_status(SchedStatus { policy: SchedPolicy::SCHED_FIFO, priority: 9 });
    let _lo = rq.add_task(lo);
    let hi1 = rq.add_task(hi1);
    let _hi2 = rq.add_task(hi2);

    // Ties break by queue order: the earlier of the two high-priority
    // tasks wins.
    rq.yield_current();
    assert_eq!(rq.current, hi1);
    rq.finish_switch();
}

#[test]
fn affinity_excludes_cpu_from_selection() {
    let (mut rq, mut alloc) = fresh_rq();
    let _idle = spawn(&mut rq, &mut alloc, "idle", 0x10_0000);
    let mut pinned =
        TaskInner::new(&mut alloc, "pinned".to_string(), 0x20_0000, 4096, 0, 0, 1, 0, false);
    // Allow only CPU 1; this queue schedules CPU 0.
    pinned.cpu_set = 0b10;
    let _pinned = rq.add_task(pinned);
    let main_slot = rq.current;

    rq.yield_current();
    // The pinned task is ineligible here; main itself is picked again.
    assert_eq!(rq.current, main_slot);
    assert!(!rq.lock_held);
}

#[test]
fn timer_tick_marks_resched_and_gate_opens_once() {
    let (mut rq, mut alloc) = fresh_rq();
    let _idle = spawn(&mut rq, &mut alloc, "idle", 0x10_0000);
    let other = spawn(&mut rq, &mut alloc, "other", 0x20_0000);
    let main_slot = rq.current;

    {
        let t = &mut rq.tasks[main_slot];
        t.disable_preempt();
    }
    rq.scheduler_timer_tick();
    assert!(rq.tasks[main_slot].need_resched);
    // The counter is above zero: the pending flag must not reschedule.
    assert_eq!(rq.current, main_slot);
    // Closing the outermost section with the flag marked switches
    // exactly once, to the other task.
    rq.enable_preempt(true);
    assert_eq!(rq.current, other);
    assert!(rq.lock_held);
    rq.finish_switch();
    assert!(!rq.tasks[main_slot].need_resched);
}

#[test]
fn current_task_handle_identity() {
    let (mut rq, mut alloc) = fresh_rq();
    let _idle = spawn(&mut rq, &mut alloc, "idle", 0x10_0000);
    let cur = CurrentTask::get(&rq);
    assert_eq!(cur.slot, rq.current);
    let id: TaskId = cur.clone();
    assert!(cur.ptr_eq(&id));
    assert_eq!(*cur.as_task_ref(), id);
    let other_id = TaskId::new(&mut alloc);
    assert!(!cur.ptr_eq(&other_id));
}
