use axtask::task::align_up_4k;
use axtask::task::SchedPolicy;
use axtask::task::SchedStatus;
use axtask::task::TaskIdAllocator;
use axtask::task::TaskInner;
use axtask::task::TaskStack;
use axtask::task::TaskState;
use axtask::KERNEL_PROCESS_ID;
use axtask::TRAP_FRAME_SIZE;

#[test]
fn align_up_rounds_to_whole_pages() {
    assert_eq!(align_up_4k(1), 4096);
    assert_eq!(align_up_4k(4096), 4096);
    assert_eq!(align_up_4k(4097), 8192);
    assert_eq!(align_up_4k(0), 0);
}

#[test]
fn stack_top_and_first_trap_frame() {
    let s = TaskStack::allocate(0x10_0000, 8192);
    assert_eq!(s.top(), 0x10_2000);
    assert_eq!(s.get_first_trap_frame(), 0x10_2000 - TRAP_FRAME_SIZE);
}

#[test]
fn state_round_trips_through_stored_integer() {
    for s in [TaskState::Running, TaskState::Ready, TaskState::Blocked, TaskState::Exited] {
        assert_eq!(TaskState::from_u8(s.as_u8()), s);
    }
    assert_eq!(TaskState::Running.as_u8(), 1);
    assert_eq!(TaskState::Exited.as_u8(), 4);
}

#[test]
fn sched_policy_numeric_conversions() {
    assert_eq!(SchedPolicy::from(0), SchedPolicy::SCHED_OTHER);
    assert_eq!(SchedPolicy::from(1), SchedPolicy::SCHED_FIFO);
    assert_eq!(SchedPolicy::from(2), SchedPolicy::SCHED_RR);
    assert_eq!(SchedPolicy::from(3), SchedPolicy::SCHED_BATCH);
    assert_eq!(SchedPolicy::from(5), SchedPolicy::SCHED_IDLE);
    assert_eq!(SchedPolicy::from(4), SchedPolicy::SCHED_UNKNOWN);
    assert_eq!(isize::from(SchedPolicy::SCHED_IDLE), 5);
    assert_eq!(isize::from(SchedPolicy::SCHED_UNKNOWN), -1);
}

#[test]
fn new_task_starts_ready_with_defaults() {
    let mut alloc = TaskIdAllocator::new();
    let t = TaskInner::new(
        &mut alloc,
        "worker".to_string(),
        0x20_0000,
        4096,
        0xdead_0000,
        0x77,
        9,
        0x5000,
        true,
    );
    assert_eq!(t.state(), TaskState::Ready);
    assert_eq!(t.name().as_str(), "worker");
    assert!(!t.is_idle());
    assert!(!t.is_init());
    assert_eq!(t.get_process_id(), 9);
    assert_eq!(t.get_page_table_token(), 0x5000);
    assert!(t.get_sig_child());
    assert_eq!(t.get_kernel_stack_top(), Some(0x20_1000));
    assert_eq!(t.get_first_trap_frame(), 0x20_1000 - TRAP_FRAME_SIZE);
    let ctx = t.get_ctx();
    assert_eq!(ctx.pc, 0xdead_0000);
    assert_eq!(ctx.sp, 0x20_1000 - TRAP_FRAME_SIZE);
    assert_eq!(ctx.tls, 0x77);
    let st = t.get_sched_status();
    assert_eq!(st.policy, SchedPolicy::SCHED_FIFO);
    assert_eq!(st.priority, 1);
}

#[test]
fn task_named_idle_becomes_the_idle_task() {
    let mut alloc = TaskIdAllocator::new();
    let t = TaskInner::new(
        &mut alloc,
        "idle".to_string(),
        0x20_0000,
        4096,
        0,
        0,
        KERNEL_PROCESS_ID,
        0,
        false,
    );
    assert!(t.is_idle());
    let init = TaskInner::new_init(&mut alloc, "idle".to_string());
    assert!(init.is_idle());
    assert!(init.is_init());
    assert_eq!(init.state(), TaskState::Running);
}

#[test]
fn bookkeeping_setters_and_getters() {
    let mut alloc = TaskIdAllocator::new();
    let mut t = TaskInner::new_init(&mut alloc, "t".to_string());
    t.set_name("renamed".to_string());
    assert_eq!(t.name().as_str(), "renamed");
    t.set_leader(true);
    assert!(t.is_leader());
    t.set_child_tid(0x123);
    t.set_clear_child_tid(0x456);
    assert_eq!(t.get_clear_child_tid(), 0x456);
    t.set_process_id(7);
    assert_eq!(t.get_process_id(), 7);
    t.set_sig_child(true);
    assert!(t.get_sig_child());
    t.set_state(TaskState::Blocked);
    assert!(t.is_blocked());
    assert!(!t.is_running());
    assert!(!t.is_ready());
    t.set_in_wait_queue(true);
    assert!(t.in_wait_queue());
    t.set_in_timer_list(true);
    assert!(t.in_timer_list());
    t.set_sched_status(SchedStatus { policy: SchedPolicy::SCHED_RR, priority: 3 });
    assert_eq!(t.get_sched_status().priority, 3);
}
