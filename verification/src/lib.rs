//! A preemptive multitasking core: task identity and lifecycle, ready-queue
//! scheduling, the two-phase context-switch lock protocol, wait queues, and
//! address-keyed futexes, together with page-number arithmetic and trap
//! classification for the surrounding kernel. Per-task clock accounting
//! and display-text formatting stay with the platform layer, beside the
//! clock and the console themselves.
use vstd::prelude::*;

pub mod futex;
pub mod page;
pub mod run_queue;
pub mod task;
pub mod trap;
pub mod wait_queue;

verus! {

/// Number of CPU cores configured for the image.
pub const SMP: usize = 4;

/// Process id of the kernel process; tasks belong to it until adopted.
pub const KERNEL_PROCESS_ID: u64 = 1;

/// Size in bytes of a saved trap frame (32 general registers, sstatus,
/// sepc and two floating-point save slots, 8 bytes each).
pub const TRAP_FRAME_SIZE: usize = 288;

/// Start of the kernel's virtual address window; anything above it is
/// kernel memory.
pub const VIRT_ADDR_START: u64 = 0xffff_ffc0_0000_0000;

} // verus!
