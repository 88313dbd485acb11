use axtask::task::TaskId;
use axtask::task::TaskIdAllocator;

#[test]
fn ids_are_distinct_and_increasing() {
    let mut alloc = TaskIdAllocator::new();
    let mut ids: Vec<u64> = Vec::new();
    for _ in 0..100 {
        ids.push(TaskId::new(&mut alloc).as_u64());
    }
    for i in 0..ids.len() {
        for j in (i + 1)..ids.len() {
            assert!(ids[i] < ids[j]);
            assert_ne!(ids[i], ids[j]);
        }
    }
}

#[test]
fn first_id_is_one() {
    let mut alloc = TaskIdAllocator::new();
    let id = TaskId::new(&mut alloc);
    assert_eq!(id.as_u64(), 1);
    let id2 = TaskId::new(&mut alloc);
    assert_eq!(id2.as_u64(), 2);
}

#[test]
fn clear_resets_to_reserved_baseline() {
    let mut alloc = TaskIdAllocator::new();
    for _ in 0..10 {
        TaskId::new(&mut alloc);
    }
    TaskId::clear(&mut alloc);
    let id = TaskId::new(&mut alloc);
    assert_eq!(id.as_u64(), 5);
}
