use axtask::task::TaskIdAllocator;
use axtask::task::TaskInner;
use axtask::task::VforkCheck;
use axtask::wait_queue::WaitQueue;

#[test]
fn fifo_order_is_kept() {
    let mut q = WaitQueue::new();
    assert!(q.is_empty());
    q.push_back(3);
    q.push_back(1);
    q.push_back(2);
    assert_eq!(q.len(), 3);
    assert_eq!(q.get(0), 3);
    assert_eq!(q.pop_front(), Some(3));
    assert_eq!(q.pop_front(), Some(1));
    assert_eq!(q.pop_front(), Some(2));
    assert_eq!(q.pop_front(), None);
}

#[test]
fn take_all_drains_in_order() {
    let mut q = WaitQueue::new();
    q.push_back(5);
    q.push_back(6);
    let all = q.take_all();
    assert_eq!(all, vec![5, 6]);
    assert!(q.is_empty());
}

struct AlwaysVforked;

impl VforkCheck for AlwaysVforked {
    fn check_vfork(&self, process_id: u64) -> bool {
        process_id == 9
    }
}

#[test]
fn vfork_check_goes_through_the_process_layer() {
    let mut alloc = TaskIdAllocator::new();
    let mut t = TaskInner::new_init(&mut alloc, "t".to_string());
    t.set_process_id(9);
    assert!(t.is_vfork(&AlwaysVforked));
    t.set_process_id(8);
    assert!(!t.is_vfork(&AlwaysVforked));
}
