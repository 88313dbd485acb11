//! The futex table: process-wide state mapping a user-visible address to
//! the queue of tasks parked on it, with WAIT, WAKE and REQUEUE semantics.
//!
//! Resolving the address to mapped memory and reading the word there are
//! the memory layer's work; the caller performs both and passes the
//! outcomes in, and everything after that point — the value check, the
//! queueing, the wake order, the clamping — is decided and proved here.
use vstd::prelude::*;

use crate::run_queue::spec_wake_all_added;
use crate::run_queue::spec_wake_all_tasks;
use crate::run_queue::AxRunQueue;
use crate::task::TaskState;

verus! {

/// The error codes the futex calls return.
#[derive(Clone, Copy, PartialEq, Eq, Structural, Debug)]
pub enum ErrorNo {
    /// The word at the address no longer held the expected value.
    EAGAIN,
    /// The address could not be resolved to valid, present memory.
    EFAULT,
    /// The operation code is not one the kernel knows.
    EINVAL,
}

impl ErrorNo {
    /// The conventional negative errno value.
    pub fn code(&self) -> (r: i32)
        ensures
            *self == ErrorNo::EAGAIN ==> r == -11,
            *self == ErrorNo::EFAULT ==> r == -14,
            *self == ErrorNo::EINVAL ==> r == -22,
    {
        match self {
            ErrorNo::EAGAIN => -11,
            ErrorNo::EFAULT => -14,
            ErrorNo::EINVAL => -22,
        }
    }
}

/// The futex operations, as decoded from the raw operation word.
#[derive(Clone, Copy, PartialEq, Eq, Structural, Debug)]
pub enum FutexFlags {
    /// Park the caller until the word changes hands.
    WAIT,
    /// Wake up to a given number of parked tasks.
    WAKE,
    /// Wake some parked tasks and move the rest to another address.
    REQUEUE,
    /// Anything else: rejected with an invalid-argument error.
    UNSUPPORTED,
}

/// The operation a raw operation word selects.
pub open spec fn spec_futex_flags(op: i32) -> FutexFlags {
    if op == 0 {
        FutexFlags::WAIT
    } else if op == 1 {
        FutexFlags::WAKE
    } else if op == 3 {
        FutexFlags::REQUEUE
    } else {
        FutexFlags::UNSUPPORTED
    }
}

impl FutexFlags {
    /// Decodes a raw operation word.
    pub fn new(op: i32) -> (r: FutexFlags)
        ensures
            r == spec_futex_flags(op),
    {
        if op == 0 {
            FutexFlags::WAIT
        } else if op == 1 {
            FutexFlags::WAKE
        } else if op == 3 {
            FutexFlags::REQUEUE
        } else {
            FutexFlags::UNSUPPORTED
        }
    }
}

/// One futex entry: the tasks parked on one address, in arrival order.
pub struct FutexBucket {
    /// The user-visible address the entry is keyed by.
    pub addr: usize,
    /// The slots of the parked tasks, first arrival first.
    pub waiters: Vec<usize>,
}

/// The index of the entry keyed by `addr` among the first `n`, or -1.
pub open spec fn spec_bucket_index(buckets: Seq<FutexBucket>, addr: usize, n: int) -> int
    decreases n,
{
    if n <= 0 {
        -1
    } else {
        let prev = spec_bucket_index(buckets, addr, n - 1);
        if prev >= 0 {
            prev
        } else if buckets[n - 1].addr == addr {
            n - 1
        } else {
            -1
        }
    }
}

/// What a bucket-index answer means: the entry there is keyed by the
/// address, no earlier one is, and a negative answer means no entry is.
pub proof fn lemma_bucket_index_props(buckets: Seq<FutexBucket>, addr: usize, n: int)
    requires
        0 <= n <= buckets.len(),
    ensures
        spec_bucket_index(buckets, addr, n) == -1 ==> forall|j: int|
            0 <= j < n ==> buckets[j].addr != addr,
        spec_bucket_index(buckets, addr, n) >= 0 ==> {
            let i = spec_bucket_index(buckets, addr, n);
            0 <= i < n && buckets[i].addr == addr && (forall|j: int|
                0 <= j < i ==> buckets[j].addr != addr)
        },
    decreases n,
{
    if n > 0 {
        lemma_bucket_index_props(buckets, addr, n - 1);
    }
}

/// Keeping every entry's key keeps every index.
pub proof fn lemma_bucket_index_same_addrs(
    b1: Seq<FutexBucket>,
    b2: Seq<FutexBucket>,
    addr: usize,
    n: int,
)
    requires
        b1.len() == b2.len(),
        forall|j: int| 0 <= j < b1.len() ==> b1[j].addr == b2[j].addr,
        0 <= n <= b1.len(),
    ensures
        spec_bucket_index(b1, addr, n) == spec_bucket_index(b2, addr, n),
    decreases n,
{
    if n > 0 {
        lemma_bucket_index_same_addrs(b1, b2, addr, n - 1);
    }
}

/// Appending an entry with a new key leaves the index of every other key
/// as it was, and gives the new key the appended position.
pub proof fn lemma_bucket_index_push(buckets: Seq<FutexBucket>, nb: FutexBucket, addr: usize, n: int)
    requires
        0 <= n <= buckets.len(),
    ensures
        spec_bucket_index(buckets.push(nb), addr, n) == spec_bucket_index(buckets, addr, n),
    decreases n,
{
    if n > 0 {
        lemma_bucket_index_push(buckets, nb, addr, n - 1);
        assert(buckets.push(nb)[n - 1] == buckets[n - 1]);
    }
}

/// Once an entry is found, scanning further never changes the answer.
pub proof fn lemma_bucket_index_stable(buckets: Seq<FutexBucket>, addr: usize, k: int, m: int)
    requires
        0 <= k <= m <= buckets.len(),
        spec_bucket_index(buckets, addr, k) >= 0,
    ensures
        spec_bucket_index(buckets, addr, m) == spec_bucket_index(buckets, addr, k),
    decreases m,
{
    if m > k {
        lemma_bucket_index_stable(buckets, addr, k, m - 1);
    }
}

/// The futex table: one entry per address some task has waited on.
/// Entries are created lazily on first wait and left in place when
/// emptied.
pub struct FutexTable {
    /// The entries; no two share an address.
    pub buckets: Vec<FutexBucket>,
}

impl FutexTable {
    /// No two entries share an address.
    pub open spec fn wf(self) -> bool {
        forall|i: int, j: int|
            0 <= i < j < self.buckets@.len() ==> self.buckets@[i].addr != self.buckets@[j].addr
    }

    /// The queue parked on an address: the entry's waiters, or empty where
    /// no entry exists. An empty entry and no entry read the same.
    pub open spec fn spec_queue(self, addr: usize) -> Seq<usize> {
        let i = spec_bucket_index(self.buckets@, addr, self.buckets@.len() as int);
        if i >= 0 {
            self.buckets@[i].waiters@
        } else {
            Seq::empty()
        }
    }

    /// An empty table.
    pub fn new() -> (r: Self)
        ensures
            r.wf(),
            forall|a: usize| r.spec_queue(a) == Seq::<usize>::empty(),
    {
        let r = FutexTable { buckets: Vec::new() };
        proof {
            assert forall|a: usize| r.spec_queue(a) == Seq::<usize>::empty() by {
                assert(spec_bucket_index(r.buckets@, a, 0) == -1);
            }
        }
        r
    }

    /// Finds the entry keyed by an address.
    fn find_bucket(&self, addr: usize) -> (r: Option<usize>)
        requires
            self.wf(),
        ensures
            match r {
                Some(i) => spec_bucket_index(self.buckets@, addr, self.buckets@.len() as int)
                    == i as int && i < self.buckets@.len(),
                None => spec_bucket_index(self.buckets@, addr, self.buckets@.len() as int) == -1,
            },
    {
        let n = self.buckets.len();
        let mut i: usize = 0;
        while i < n
            invariant
                self.wf(),
                n == self.buckets@.len(),
                i <= n,
                spec_bucket_index(self.buckets@, addr, i as int) == -1,
            decreases n - i,
        {
            if self.buckets[i].addr == addr {
                proof {
                    lemma_bucket_index_stable(self.buckets@, addr, i as int + 1, n as int);
                }
                return Some(i);
            }
            i = i + 1;
        }
        None
    }
}

impl FutexTable {
    /// Parks one more waiter at the tail of an address's queue, creating
    /// the entry on first use.
    fn push_waiter(&mut self, addr: usize, slot: usize)
        requires
            old(self).wf(),
        ensures
            final(self).wf(),
            final(self).spec_queue(addr) == old(self).spec_queue(addr).push(slot),
            forall|a: usize| a != addr ==> final(self).spec_queue(a) == old(self).spec_queue(a),
    {
        let ghost oldb = self.buckets@;
        let ghost n = oldb.len() as int;
        let found = self.find_bucket(addr);
        proof {
            lemma_bucket_index_props(oldb, addr, n);
        }
        match found {
            Some(i) => {
                let b = &mut self.buckets[i];
                b.waiters.push(slot);
                proof {
                    assert forall|a: usize|
                        #[trigger] spec_bucket_index(self.buckets@, a, n) == spec_bucket_index(
                            oldb,
                            a,
                            n,
                        ) by {
                        lemma_bucket_index_same_addrs(self.buckets@, oldb, a, n);
                    }
                    assert forall|a: usize| a != addr implies self.spec_queue(a) == old(
                        self,
                    ).spec_queue(a) by {
                        lemma_bucket_index_props(oldb, a, n);
                    }
                }
            },
            None => {
                let mut waiters: Vec<usize> = Vec::new();
                waiters.push(slot);
                self.buckets.push(FutexBucket { addr, waiters });
                proof {
                    assert(self.buckets@ =~= oldb.push(self.buckets@[n]));
                    lemma_bucket_index_push(oldb, self.buckets@[n], addr, n);
                    assert(spec_bucket_index(self.buckets@, addr, n + 1) == n);
                    assert(old(self).spec_queue(addr) =~= Seq::<usize>::empty());
                    assert(self.spec_queue(addr) =~= old(self).spec_queue(addr).push(slot));
                    assert forall|a: usize| a != addr implies self.spec_queue(a) == old(
                        self,
                    ).spec_queue(a) by {
                        lemma_bucket_index_push(oldb, self.buckets@[n], a, n);
                        lemma_bucket_index_props(oldb, a, n);
                        if spec_bucket_index(oldb, a, n) >= 0 {
                            assert(self.spec_queue(a) =~= old(self).spec_queue(a));
                        } else {
                            assert(spec_bucket_index(self.buckets@, a, n + 1) == -1);
                        }
                    }
                    assert forall|i: int, j: int|
                        0 <= i < j < self.buckets@.len() implies self.buckets@[i].addr
                        != self.buckets@[j].addr by {
                        if j == n {
                            assert(self.buckets@[i].addr == oldb[i].addr);
                        }
                    }
                }
            },
        }
    }

    /// Takes the first `cnt` waiters off the entry in position `i`,
    /// keeping the rest in order.
    fn take_waiters(&mut self, i: usize, cnt: usize) -> (taken: Vec<usize>)
        requires
            old(self).wf(),
            i < old(self).buckets@.len(),
            cnt <= old(self).buckets@[i as int].waiters@.len(),
        ensures
            final(self).wf(),
            taken@ == old(self).buckets@[i as int].waiters@.take(cnt as int),
            final(self).buckets@.len() == old(self).buckets@.len(),
            final(self).buckets@[i as int].addr == old(self).buckets@[i as int].addr,
            final(self).buckets@[i as int].waiters@ == old(self).buckets@[i as int].waiters@.skip(
                cnt as int,
            ),
            forall|j: int|
                0 <= j < old(self).buckets@.len() && j != i ==> final(self).buckets@[j] == old(
                    self,
                ).buckets@[j],
            final(self).spec_queue(old(self).buckets@[i as int].addr) == old(
                self,
            ).buckets@[i as int].waiters@.skip(cnt as int),
            forall|a: usize|
                a != old(self).buckets@[i as int].addr ==> final(self).spec_queue(a) == old(
                    self,
                ).spec_queue(a),
    {
        let ghost oldb = self.buckets@;
        let ghost n = oldb.len() as int;
        let ghost addr = oldb[i as int].addr;
        let taken = {
            let b = &mut self.buckets[i];
            let mut rest = b.waiters.split_off(cnt);
            core::mem::swap(&mut b.waiters, &mut rest);
            rest
        };
        proof {
            assert(taken@ =~= oldb[i as int].waiters@.take(cnt as int));
            assert(self.buckets@[i as int].waiters@ =~= oldb[i as int].waiters@.skip(cnt as int));
            assert forall|a: usize|
                #[trigger] spec_bucket_index(self.buckets@, a, n) == spec_bucket_index(
                    oldb,
                    a,
                    n,
                ) by {
                lemma_bucket_index_same_addrs(self.buckets@, oldb, a, n);
            }
            lemma_bucket_index_props(oldb, addr, n);
            lemma_bucket_index_stable(oldb, addr, i as int + 1, n);
            assert(spec_bucket_index(oldb, addr, i as int + 1) == i as int);
            assert(spec_bucket_index(oldb, addr, n) == i as int);
            assert forall|a: usize| a != addr implies self.spec_queue(a) == old(
                self,
            ).spec_queue(a) by {
                lemma_bucket_index_props(oldb, a, n);
            }
        }
        taken
    }

    /// Appends waiters, in their order, at the tail of an address's queue,
    /// creating the entry on first use.
    fn append_waiters(&mut self, addr: usize, moved: &mut Vec<usize>)
        requires
            old(self).wf(),
        ensures
            final(self).wf(),
            final(self).spec_queue(addr) == old(self).spec_queue(addr) + old(moved)@,
            forall|a: usize| a != addr ==> final(self).spec_queue(a) == old(self).spec_queue(a),
    {
        let ghost oldb = self.buckets@;
        let ghost n = oldb.len() as int;
        let found = self.find_bucket(addr);
        proof {
            lemma_bucket_index_props(oldb, addr, n);
        }
        match found {
            Some(i) => {
                let b = &mut self.buckets[i];
                b.waiters.append(moved);
                proof {
                    assert forall|a: usize|
                        #[trigger] spec_bucket_index(self.buckets@, a, n) == spec_bucket_index(
                            oldb,
                            a,
                            n,
                        ) by {
                        lemma_bucket_index_same_addrs(self.buckets@, oldb, a, n);
                    }
                    assert forall|a: usize| a != addr implies self.spec_queue(a) == old(
                        self,
                    ).spec_queue(a) by {
                        lemma_bucket_index_props(oldb, a, n);
                    }
                }
            },
            None => {
                let mut waiters: Vec<usize> = Vec::new();
                waiters.append(moved);
                self.buckets.push(FutexBucket { addr, waiters });
                proof {
                    assert(self.buckets@ =~= oldb.push(self.buckets@[n]));
                    lemma_bucket_index_push(oldb, self.buckets@[n], addr, n);
                    assert(spec_bucket_index(self.buckets@, addr, n + 1) == n);
                    assert(old(self).spec_queue(addr) =~= Seq::<usize>::empty());
                    assert(self.spec_queue(addr) =~= old(self).spec_queue(addr) + old(moved)@);
                    assert forall|a: usize| a != addr implies self.spec_queue(a) == old(
                        self,
                    ).spec_queue(a) by {
                        lemma_bucket_index_push(oldb, self.buckets@[n], a, n);
                        lemma_bucket_index_props(oldb, a, n);
                        if spec_bucket_index(oldb, a, n) >= 0 {
                            assert(self.spec_queue(a) =~= old(self).spec_queue(a));
                        } else {
                            assert(spec_bucket_index(self.buckets@, a, n + 1) == -1);
                        }
                    }
                    assert forall|i: int, j: int|
                        0 <= i < j < self.buckets@.len() implies self.buckets@[i].addr
                        != self.buckets@[j].addr by {
                        if j == n {
                            assert(self.buckets@[i].addr == oldb[i].addr);
                        }
                    }
                }
            },
        }
    }
}

/// What a successful WAIT leaves behind: the caller sits at the tail of
/// the address's queue, every other queue is untouched, and the CPU has
/// gone to the next pick.
pub open spec fn spec_after_wait(
    rq1: AxRunQueue,
    t1: FutexTable,
    vaddr: usize,
    rq2: AxRunQueue,
    t2: FutexTable,
) -> bool {
    t2.spec_queue(vaddr) == t1.spec_queue(vaddr).push(rq1.current) && (forall|a: usize|
        a != vaddr ==> t2.spec_queue(a) == t1.spec_queue(a)) && rq1.spec_after_block(rq2)
}

/// What a WAKE leaves behind: the `count` earliest-registered waiters — no
/// more, no fewer, in registration order — leave the queue, each of them
/// still blocked becomes ready at the ready-queue tail, and every other
/// queue and task is untouched.
pub open spec fn spec_after_wake(
    rq1: AxRunQueue,
    t1: FutexTable,
    vaddr: usize,
    n: u32,
    count: int,
    rq2: AxRunQueue,
    t2: FutexTable,
) -> bool {
    let q = t1.spec_queue(vaddr);
    count == (if n as int <= q.len() {
        n as int
    } else {
        q.len() as int
    }) && t2.spec_queue(vaddr) == q.skip(count) && (forall|a: usize|
        a != vaddr ==> t2.spec_queue(a) == t1.spec_queue(a)) && rq2.tasks@ == spec_wake_all_tasks(
        rq1.tasks@,
        q.take(count),
    ) && rq2.ready@ == rq1.ready@ + spec_wake_all_added(rq1.tasks@, q.take(count)) && rq2.current
        == rq1.current && rq2.lock_held == rq1.lock_held && rq2.cpu_id == rq1.cpu_id
}

/// What a REQUEUE leaves behind: up to `wake_num` earliest waiters of the
/// source queue are woken in registration order; of the rest, up to
/// `move_num` move to the destination queue's tail in their original
/// order; both counts clamp to what is there, never erring. With the two
/// addresses equal, the movers are taken off the front of what remains
/// and re-appended at its tail: the queue rotates by the move count.
pub open spec fn spec_after_requeue(
    rq1: AxRunQueue,
    t1: FutexTable,
    wake_num: u32,
    move_num: usize,
    src_addr: usize,
    dst_addr: usize,
    rq2: AxRunQueue,
    t2: FutexTable,
) -> bool {
    let q = t1.spec_queue(src_addr);
    let w = if wake_num as int <= q.len() {
        wake_num as int
    } else {
        q.len() as int
    };
    let rem = q.skip(w);
    let m = if rem.len() == 0 {
        0
    } else if move_num as int <= rem.len() {
        move_num as int
    } else {
        rem.len() as int
    };
    (if src_addr == dst_addr {
        t2.spec_queue(src_addr) == rem.skip(m) + rem.take(m)
    } else {
        t2.spec_queue(src_addr) == q.skip(w + m) && t2.spec_queue(dst_addr) == t1.spec_queue(
            dst_addr,
        ) + rem.take(m)
    }) && (forall|a: usize|
        a != src_addr && a != dst_addr ==> t2.spec_queue(a) == t1.spec_queue(a)) && rq2.tasks@
        == spec_wake_all_tasks(rq1.tasks@, q.take(w)) && rq2.ready@ == rq1.ready@
        + spec_wake_all_added(rq1.tasks@, q.take(w)) && rq2.current == rq1.current && rq2.lock_held
        == rq1.lock_held && rq2.cpu_id == rq1.cpu_id
}

/// Wakes up to `n` tasks parked on the address, in registration order, and
/// answers how many queue entries were taken: the queue length when fewer
/// than `n` waited, `n` otherwise.
pub fn futex_wake(rq: &mut AxRunQueue, table: &mut FutexTable, vaddr: usize, n: u32) -> (count:
    usize)
    requires
        old(rq).wf(),
        old(table).wf(),
    ensures
        final(rq).wf(),
        final(table).wf(),
        spec_after_wake(*old(rq), *old(table), vaddr, n, count as int, *final(rq), *final(table)),
{
    let found = table.find_bucket(vaddr);
    match found {
        Some(i) => {
            proof {
                lemma_bucket_index_props(table.buckets@, vaddr, table.buckets@.len() as int);
                assert(table.buckets@[i as int].addr == vaddr);
                assert(table.buckets@[i as int].waiters@ == table.spec_queue(vaddr));
            }
            let qlen = {
                let b = &table.buckets[i];
                b.waiters.len()
            };
            let cnt = if (n as usize) < qlen {
                n as usize
            } else {
                qlen
            };
            let woken = table.take_waiters(i, cnt);
            rq.unblock_all(&woken);
            cnt
        },
        None => {
            proof {
                assert(old(table).spec_queue(vaddr) =~= Seq::<usize>::empty());
                assert(old(table).spec_queue(vaddr).take(0) =~= Seq::<usize>::empty());
                assert(rq.ready@ =~= rq.ready@ + spec_wake_all_added(
                    rq.tasks@,
                    Seq::<usize>::empty(),
                ));
            }
            0
        },
    }
}

/// Wakes up to `wake_num` waiters of the source address in registration
/// order; whatever remains then loses up to `move_num` waiters, in their
/// original order, to the tail of the destination address's queue. Both
/// counts clamp to the queue's length: asking for too many is not an
/// error. Naming the same address twice moves the front of what remains
/// to its own tail.
pub fn futex_requeue(
    rq: &mut AxRunQueue,
    table: &mut FutexTable,
    wake_num: u32,
    move_num: usize,
    src_addr: usize,
    dst_addr: usize,
)
    requires
        old(rq).wf(),
        old(table).wf(),
    ensures
        final(rq).wf(),
        final(table).wf(),
        spec_after_requeue(
            *old(rq),
            *old(table),
            wake_num,
            move_num,
            src_addr,
            dst_addr,
            *final(rq),
            *final(table),
        ),
{
    let found = table.find_bucket(src_addr);
    let i = match found {
        Some(i) => i,
        None => {
            proof {
                assert(old(table).spec_queue(src_addr) =~= Seq::<usize>::empty());
                let q = old(table).spec_queue(src_addr);
                assert(q.take(0) =~= Seq::<usize>::empty());
                assert(q.skip(0) =~= Seq::<usize>::empty());
                assert(q.skip(0).take(0) =~= Seq::<usize>::empty());
                assert(old(table).spec_queue(dst_addr) =~= old(table).spec_queue(dst_addr)
                    + q.skip(0).take(0));
                assert(rq.ready@ =~= rq.ready@ + spec_wake_all_added(
                    rq.tasks@,
                    Seq::<usize>::empty(),
                ));
            }
            return ;
        },
    };
    let ghost q = old(table).spec_queue(src_addr);
    proof {
        lemma_bucket_index_props(old(table).buckets@, src_addr, old(table).buckets@.len() as int);
        assert(old(table).buckets@[i as int].addr == src_addr);
    }
    let qlen = {
        let b = &table.buckets[i];
        b.waiters.len()
    };
    let w = if (wake_num as usize) < qlen {
        wake_num as usize
    } else {
        qlen
    };
    let woken = table.take_waiters(i, w);
    rq.unblock_all(&woken);
    let remlen = {
        let b = &table.buckets[i];
        b.waiters.len()
    };
    proof {
        assert(table.buckets@[i as int].addr == src_addr);
        assert(table.buckets@[i as int].waiters@ == q.skip(w as int));
    }
    if remlen > 0 {
        let m = if move_num < remlen {
            move_num
        } else {
            remlen
        };
        let mut moved = table.take_waiters(i, m);
        proof {
            assert(table.spec_queue(src_addr) =~= q.skip(w as int).skip(m as int));
            assert(moved@ =~= q.skip(w as int).take(m as int));
        }
        table.append_waiters(dst_addr, &mut moved);
        proof {
            let rem = q.skip(w as int);
            if src_addr != dst_addr {
                assert(table.spec_queue(src_addr) =~= q.skip(w as int + m as int));
            }
        }
    } else {
        proof {
            let rem = q.skip(w as int);
            assert(rem.take(0) =~= Seq::<usize>::empty());
            assert(rem.skip(0) =~= rem);
            if src_addr == dst_addr {
                assert(table.spec_queue(src_addr) =~= rem.skip(0) + rem.take(0));
            } else {
                assert(table.spec_queue(dst_addr) =~= old(table).spec_queue(dst_addr) + rem.take(
                    0,
                ));
                assert(q.skip(w as int + 0) =~= q.skip(w as int));
            }
        }
    }
}

/// Parks the caller on the address's queue, provided the word there still
/// holds the expected value. The memory layer resolves the address
/// (`addr_valid`, lazily allocating if needed) and reads the word
/// (`current_val`) before the call; the value is checked here, at call
/// time only — a wake never rechecks it. An unresolvable address faults; a
/// changed value fails at once without blocking; otherwise the caller
/// joins the queue tail and the CPU goes to the next pick, with the lock
/// held for the resumed path to release.
pub fn futex_wait(
    rq: &mut AxRunQueue,
    table: &mut FutexTable,
    vaddr: usize,
    val: u32,
    addr_valid: bool,
    current_val: u32,
) -> (r: Result<usize, ErrorNo>)
    requires
        old(rq).wf(),
        old(table).wf(),
        addr_valid && current_val == val ==> !old(rq).lock_held && old(rq).tasks@[old(
            rq,
        ).current as int].state == TaskState::Running && (old(rq).spec_has_runnable() || old(
            rq,
        ).spec_has_idle()),
    ensures
        final(rq).wf(),
        final(table).wf(),
        r == Err::<usize, ErrorNo>(ErrorNo::EFAULT) <==> !addr_valid,
        r == Err::<usize, ErrorNo>(ErrorNo::EAGAIN) <==> (addr_valid && current_val != val),
        !(addr_valid && current_val == val) ==> *final(rq) == *old(rq) && *final(table) == *old(
            table,
        ),
        addr_valid && current_val == val ==> r == Ok::<usize, ErrorNo>(0) && spec_after_wait(
            *old(rq),
            *old(table),
            vaddr,
            *final(rq),
            *final(table),
        ),
{
    if !addr_valid {
        return Err(ErrorNo::EFAULT);
    }
    if current_val != val {
        return Err(ErrorNo::EAGAIN);
    }
    let slot = rq.block_current();
    table.push_waiter(vaddr, slot);
    Ok(0)
}

/// The futex entry point, operating on one address-keyed queue table.
/// WAIT parks the caller while the word still matches; WAKE frees up to
/// `val` earliest waiters and answers how many queue entries were taken;
/// REQUEUE wakes up to `val` waiters of `vaddr` and moves up to `timeout`
/// more to `vaddr2` (the timeout argument carries the move count for that
/// operation); any other operation is invalid. The memory layer passes in
/// whether `vaddr` resolved (`addr_valid`) and the word read there
/// (`current_val`); only WAIT consults them, and only at call time.
pub fn futex(
    rq: &mut AxRunQueue,
    table: &mut FutexTable,
    vaddr: usize,
    futex_op: i32,
    val: u32,
    timeout: usize,
    vaddr2: usize,
    _val3: u32,
    addr_valid: bool,
    current_val: u32,
) -> (r: Result<usize, ErrorNo>)
    requires
        old(rq).wf(),
        old(table).wf(),
        spec_futex_flags(futex_op) == FutexFlags::WAIT && addr_valid && current_val == val ==> !old(
            rq,
        ).lock_held && old(rq).tasks@[old(rq).current as int].state == TaskState::Running && (old(
            rq,
        ).spec_has_runnable() || old(rq).spec_has_idle()),
    ensures
        final(rq).wf(),
        final(table).wf(),
        spec_futex_flags(futex_op) == FutexFlags::WAIT ==> {
            &&& (r == Err::<usize, ErrorNo>(ErrorNo::EFAULT) <==> !addr_valid)
            &&& (r == Err::<usize, ErrorNo>(ErrorNo::EAGAIN) <==> (addr_valid && current_val != val))
            &&& (!(addr_valid && current_val == val) ==> *final(rq) == *old(rq) && *final(table)
                == *old(table))
            &&& (addr_valid && current_val == val ==> r == Ok::<usize, ErrorNo>(0)
                && spec_after_wait(*old(rq), *old(table), vaddr, *final(rq), *final(table)))
        },
        spec_futex_flags(futex_op) == FutexFlags::WAKE ==> (r matches Ok(count)
            && spec_after_wake(
            *old(rq),
            *old(table),
            vaddr,
            val,
            count as int,
            *final(rq),
            *final(table),
        )),
        spec_futex_flags(futex_op) == FutexFlags::REQUEUE ==> r == Ok::<usize, ErrorNo>(0)
            && spec_after_requeue(
            *old(rq),
            *old(table),
            val,
            timeout,
            vaddr,
            vaddr2,
            *final(rq),
            *final(table),
        ),
        spec_futex_flags(futex_op) == FutexFlags::UNSUPPORTED ==> r == Err::<usize, ErrorNo>(ErrorNo::EINVAL)
            && *final(rq) == *old(rq) && *final(table) == *old(table),
{
    let flag = FutexFlags::new(futex_op);
    match flag {
        FutexFlags::WAIT => futex_wait(rq, table, vaddr, val, addr_valid, current_val),
        FutexFlags::WAKE => {
            let count = futex_wake(rq, table, vaddr, val);
            Ok(count)
        },
        FutexFlags::REQUEUE => {
            futex_requeue(rq, table, val, timeout, vaddr, vaddr2);
            Ok(0)
        },
        FutexFlags::UNSUPPORTED => Err(ErrorNo::EINVAL),
    }
}

} // verus!
