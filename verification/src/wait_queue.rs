//! A wait queue: the tasks parked on one condition, in arrival order.
//!
//! The queue holds task slots (indices into the scheduler's task table).
//! Arrival order is kept, and notification hands tasks back strictly in
//! that order: first in, first out.
use vstd::prelude::*;

verus! {

/// A first-in, first-out collection of parked task slots.
pub struct WaitQueue {
    queue: Vec<usize>,
}

impl View for WaitQueue {
    type V = Seq<usize>;

    closed spec fn view(&self) -> Seq<usize> {
        self.queue@
    }
}

impl WaitQueue {
    /// An empty queue.
    pub fn new() -> (r: Self)
        ensures
            r@ == Seq::<usize>::empty(),
    {
        WaitQueue { queue: Vec::new() }
    }

    /// How many tasks are parked.
    pub fn len(&self) -> (r: usize)
        ensures
            r == self@.len(),
    {
        self.queue.len()
    }

    /// Whether no task is parked.
    pub fn is_empty(&self) -> (r: bool)
        ensures
            r == (self@.len() == 0),
    {
        self.queue.is_empty()
    }

    /// Parks a task at the tail.
    pub fn push_back(&mut self, task: usize)
        ensures
            final(self)@ == old(self)@.push(task),
    {
        self.queue.push(task);
    }

    /// Takes the task that has waited longest, if any.
    pub fn pop_front(&mut self) -> (r: Option<usize>)
        ensures
            old(self)@.len() == 0 ==> r is None && final(self)@ == old(self)@,
            old(self)@.len() > 0 ==> r == Some(old(self)@[0]) && final(self)@ == old(self)@.subrange(
                1,
                old(self)@.len() as int,
            ),
    {
        if self.queue.len() == 0 {
            None
        } else {
            let r = self.queue.remove(0);
            Some(r)
        }
    }

    /// Takes every parked task at once, in arrival order, leaving the
    /// queue empty.
    pub fn take_all(&mut self) -> (r: Vec<usize>)
        ensures
            r@ == old(self)@,
            final(self)@ == Seq::<usize>::empty(),
    {
        let mut taken: Vec<usize> = Vec::new();
        core::mem::swap(&mut taken, &mut self.queue);
        taken
    }

    /// Reads the task at the given position, head first.
    pub fn get(&self, i: usize) -> (r: usize)
        requires
            i < self@.len(),
        ensures
            r == self@[i as int],
    {
        self.queue[i]
    }
}

} // verus!
