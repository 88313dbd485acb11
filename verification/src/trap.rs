//! Trap-frame bookkeeping and trap classification.
//!
//! A trap frame is the register state saved when an interrupt or exception
//! suspends a task. The hardware fills the raw cause registers; the functions
//! here hold the pure decisions: which kind of trap the cause encodes, and
//! what the handler must do for each kind. Reading the cause registers and
//! performing the chosen action stay with the platform layer.
use vstd::prelude::*;

use crate::VIRT_ADDR_START;

verus! {

/// Named slots of a trap frame, as the syscall and scheduling paths read
/// and write them.
#[derive(Clone, Copy, PartialEq, Eq, Structural, Debug)]
pub enum ContextArgs {
    /// Supervisor exception program counter.
    SEPC,
    /// Return address (x1).
    RA,
    /// Stack pointer (x2).
    SP,
    /// Syscall return-value slot (x10).
    RET,
    /// First syscall argument (x10).
    ARG0,
    /// Second syscall argument (x11).
    ARG1,
    /// Third syscall argument (x12).
    ARG2,
    /// Thread-local-storage pointer (x4).
    TLS,
    /// Syscall number (x17).
    SYSCALL,
}

/// Saved register state of a suspended execution: the 32 general registers,
/// the supervisor status and exception program counter, and the two
/// floating-point save slots held as raw bits.
#[derive(Debug)]
pub struct TrapFrame {
    /// General registers x0..x31.
    pub x: Vec<usize>,
    /// Supervisor status register, raw bits.
    pub sstatus: usize,
    /// Supervisor exception program counter.
    pub sepc: usize,
    /// First floating-point save slot, raw bits.
    pub fs0: usize,
    /// Second floating-point save slot, raw bits.
    pub fs1: usize,
}

/// Supervisor-status bit that records the privilege the trap came from;
/// clear means user mode.
pub const SSTATUS_SPP: usize = 0x100;

/// Supervisor-status interrupt-enable bit.
pub const SSTATUS_SIE: usize = 0x2;

impl TrapFrame {
    /// A trap frame always carries exactly 32 general registers.
    pub open spec fn wf(self) -> bool {
        self.x@.len() == 32
    }

    /// Whether two frames hold the same saved state.
    pub open spec fn same_frame(self, other: TrapFrame) -> bool {
        self.x@ == other.x@ && self.sstatus == other.sstatus && self.sepc == other.sepc
            && self.fs0 == other.fs0 && self.fs1 == other.fs1
    }

    /// The value a named slot designates.
    pub open spec fn spec_reg(self, idx: ContextArgs) -> usize {
        match idx {
            ContextArgs::SEPC => self.sepc,
            ContextArgs::RA => self.x@[1],
            ContextArgs::SP => self.x@[2],
            ContextArgs::RET => self.x@[10],
            ContextArgs::ARG0 => self.x@[10],
            ContextArgs::ARG1 => self.x@[11],
            ContextArgs::ARG2 => self.x@[12],
            ContextArgs::TLS => self.x@[4],
            ContextArgs::SYSCALL => self.x@[17],
        }
    }

    /// An all-zero frame carrying the given supervisor status; the caller
    /// supplies the status it read from the hardware.
    pub fn new(sstatus: usize) -> (r: Self)
        ensures
            r.wf(),
            forall|i: int| 0 <= i < 32 ==> r.x@[i] == 0,
            r.sstatus == sstatus,
            r.sepc == 0,
            r.fs0 == 0,
            r.fs1 == 0,
    {
        let mut x: Vec<usize> = Vec::new();
        let mut i: usize = 0;
        while i < 32
            invariant
                i <= 32,
                x@.len() == i,
                forall|j: int| 0 <= j < i ==> x@[j] == 0,
            decreases 32 - i,
        {
            x.push(0);
            i = i + 1;
        }
        TrapFrame { x, sstatus, sepc: 0, fs0: 0, fs1: 0 }
    }

    /// Reads a named slot.
    pub fn reg(&self, idx: ContextArgs) -> (r: usize)
        requires
            self.wf(),
        ensures
            r == self.spec_reg(idx),
    {
        match idx {
            ContextArgs::SEPC => self.sepc,
            ContextArgs::RA => self.x[1],
            ContextArgs::SP => self.x[2],
            ContextArgs::RET => self.x[10],
            ContextArgs::ARG0 => self.x[10],
            ContextArgs::ARG1 => self.x[11],
            ContextArgs::ARG2 => self.x[12],
            ContextArgs::TLS => self.x[4],
            ContextArgs::SYSCALL => self.x[17],
        }
    }

    /// Writes a named slot, leaving every other slot as it was.
    pub fn set_reg(&mut self, idx: ContextArgs, val: usize)
        requires
            old(self).wf(),
        ensures
            final(self).wf(),
            final(self).spec_reg(idx) == val,
            final(self).sstatus == old(self).sstatus,
            final(self).fs0 == old(self).fs0,
            final(self).fs1 == old(self).fs1,
            idx != ContextArgs::SEPC ==> final(self).sepc == old(self).sepc,
            forall|i: int| 0 <= i < 32 && i != old(self).reg_index(idx) ==> final(self).x@[i] == old(self).x@[i],
    {
        match idx {
            ContextArgs::SEPC => {
                self.sepc = val;
            },
            ContextArgs::RA => {
                vec_set(&mut self.x, 1, val);
            },
            ContextArgs::SP => {
                vec_set(&mut self.x, 2, val);
            },
            ContextArgs::RET => {
                vec_set(&mut self.x, 10, val);
            },
            ContextArgs::ARG0 => {
                vec_set(&mut self.x, 10, val);
            },
            ContextArgs::ARG1 => {
                vec_set(&mut self.x, 11, val);
            },
            ContextArgs::ARG2 => {
                vec_set(&mut self.x, 12, val);
            },
            ContextArgs::TLS => {
                vec_set(&mut self.x, 4, val);
            },
            ContextArgs::SYSCALL => {
                vec_set(&mut self.x, 17, val);
            },
        }
    }

    /// The general-register index a named slot lives in; the exception
    /// program counter is kept apart and answers -1.
    pub open spec fn reg_index(self, idx: ContextArgs) -> int {
        match idx {
            ContextArgs::SEPC => -1,
            ContextArgs::RA => 1,
            ContextArgs::SP => 2,
            ContextArgs::RET => 10,
            ContextArgs::ARG0 => 10,
            ContextArgs::ARG1 => 11,
            ContextArgs::ARG2 => 12,
            ContextArgs::TLS => 4,
            ContextArgs::SYSCALL => 17,
        }
    }

    /// The six syscall argument registers, x10 through x15.
    pub fn args(&self) -> (r: Vec<usize>)
        requires
            self.wf(),
        ensures
            r@ == self.x@.subrange(10, 16),
    {
        let mut r: Vec<usize> = Vec::new();
        let mut i: usize = 10;
        while i < 16
            invariant
                10 <= i <= 16,
                self.wf(),
                r@ == self.x@.subrange(10, i as int),
            decreases 16 - i,
        {
            r.push(self.x[i]);
            assert(r@ == self.x@.subrange(10, i as int + 1));
            i = i + 1;
        }
        r
    }

    /// Steps the exception program counter past the 4-byte syscall
    /// instruction, so that returning resumes after it.
    pub fn syscall_ok(&mut self)
        requires
            old(self).sepc + 4 <= usize::MAX,
        ensures
            final(self).sepc == old(self).sepc + 4,
            final(self).x@ == old(self).x@,
            final(self).sstatus == old(self).sstatus,
            final(self).fs0 == old(self).fs0,
            final(self).fs1 == old(self).fs1,
    {
        self.sepc = self.sepc + 4;
    }

    /// The initial frame for a task's first entry into user mode: program
    /// counter at the application entry, stack pointer at the user stack
    /// top, privilege set to user and interrupts disabled. The caller reads
    /// the current supervisor status and the two words at the user stack
    /// top (argument count and argument vector) and passes them in.
    pub fn app_init_context(
        app_entry: usize,
        user_sp: usize,
        sstatus: usize,
        arg0: usize,
        arg1: usize,
    ) -> (r: Self)
        ensures
            r.wf(),
            r.spec_reg(ContextArgs::SP) == user_sp,
            r.spec_reg(ContextArgs::SEPC) == app_entry,
            r.spec_reg(ContextArgs::ARG0) == arg0,
            r.spec_reg(ContextArgs::ARG1) == arg1,
            r.sstatus == sstatus & !SSTATUS_SPP & !SSTATUS_SIE,
            forall|i: int| 0 <= i < 32 && i != 2 && i != 10 && i != 11 ==> r.x@[i] == 0,
            r.fs0 == 0,
            r.fs1 == 0,
    {
        let mut r = TrapFrame::new(sstatus & !SSTATUS_SPP & !SSTATUS_SIE);
        r.set_reg(ContextArgs::SP, user_sp);
        r.set_reg(ContextArgs::SEPC, app_entry);
        r.set_reg(ContextArgs::ARG0, arg0);
        r.set_reg(ContextArgs::ARG1, arg1);
        r
    }
}

/// The kinds of trap the cause registers can encode, as the handler tells
/// them apart.
#[derive(Clone, Copy, PartialEq, Eq, Structural, Debug)]
pub enum TrapType {
    /// A breakpoint instruction.
    Breakpoint,
    /// A syscall from user mode.
    UserEnvCall,
    /// A timer interrupt; carries the raw cause bits.
    Time(usize),
    /// A recognised but unhandled fault.
    Unknown,
    /// An external device interrupt.
    SupervisorExternal,
    /// A page fault on a store; carries the faulting address.
    StorePageFault(usize),
    /// A page fault on a load; carries the faulting address.
    LoadPageFault(usize),
    /// A page fault on an instruction fetch; carries the faulting address.
    InstructionPageFault(usize),
    /// An illegal instruction; carries the faulting address.
    IllegalInstruction(usize),
}

/// Exception code for a breakpoint.
pub const EXC_BREAKPOINT: usize = 3;

/// Exception code for a load access fault.
pub const EXC_LOAD_FAULT: usize = 5;

/// Exception code for a syscall from user mode.
pub const EXC_USER_ENV_CALL: usize = 8;

/// Exception code for an instruction page fault.
pub const EXC_INSTRUCTION_PAGE_FAULT: usize = 12;

/// Exception code for a load page fault.
pub const EXC_LOAD_PAGE_FAULT: usize = 13;

/// Exception code for a store page fault.
pub const EXC_STORE_PAGE_FAULT: usize = 15;

/// Exception code for an illegal instruction.
pub const EXC_ILLEGAL_INSTRUCTION: usize = 2;

/// Interrupt code for the supervisor timer.
pub const INT_SUPERVISOR_TIMER: usize = 5;

/// Interrupt code for a supervisor external interrupt.
pub const INT_SUPERVISOR_EXTERNAL: usize = 9;

/// The trap type the cause registers encode, or `None` for a cause the
/// kernel treats as fatal: an unrecognised cause, or a load fault on a
/// kernel address. A breakpoint steps the saved program counter past the
/// 2-byte breakpoint instruction.
///
/// The caller reads the cause register and splits it into the interrupt
/// bit, the code, and the raw bits; `stval` is the trap-value register.
pub fn kernel_callback(
    tf: &mut TrapFrame,
    is_interrupt: bool,
    code: usize,
    scause_bits: usize,
    stval: usize,
) -> (r: Option<TrapType>)
    requires
        old(tf).wf(),
        !is_interrupt && code == EXC_BREAKPOINT ==> old(tf).sepc + 2 <= usize::MAX,
    ensures
        final(tf).wf(),
        final(tf).x@ == old(tf).x@,
        final(tf).sstatus == old(tf).sstatus,
        !is_interrupt && code == EXC_BREAKPOINT ==> final(tf).sepc == old(tf).sepc + 2
            && r == Some(TrapType::Breakpoint),
        !(!is_interrupt && code == EXC_BREAKPOINT) ==> final(tf).sepc == old(tf).sepc,
        is_interrupt && code == INT_SUPERVISOR_TIMER ==> r == Some(TrapType::Time(scause_bits)),
        is_interrupt && code == INT_SUPERVISOR_EXTERNAL ==> r == Some(
            TrapType::SupervisorExternal,
        ),
        is_interrupt && code != INT_SUPERVISOR_TIMER && code != INT_SUPERVISOR_EXTERNAL ==> r
            is None,
        !is_interrupt && code == EXC_LOAD_FAULT ==> r == (if stval as u64 > VIRT_ADDR_START {
            None::<TrapType>
        } else {
            Some(TrapType::Unknown)
        }),
        !is_interrupt && code == EXC_USER_ENV_CALL ==> r == Some(TrapType::UserEnvCall),
        !is_interrupt && code == EXC_STORE_PAGE_FAULT ==> r == Some(
            TrapType::StorePageFault(stval),
        ),
        !is_interrupt && code == EXC_INSTRUCTION_PAGE_FAULT ==> r == Some(
            TrapType::InstructionPageFault(stval),
        ),
        !is_interrupt && code == EXC_LOAD_PAGE_FAULT ==> r == Some(TrapType::LoadPageFault(stval)),
        !is_interrupt && code == EXC_ILLEGAL_INSTRUCTION ==> r == Some(
            TrapType::IllegalInstruction(stval),
        ),
        !is_interrupt && !(code == EXC_BREAKPOINT || code == EXC_LOAD_FAULT || code
            == EXC_USER_ENV_CALL || code == EXC_STORE_PAGE_FAULT || code
            == EXC_INSTRUCTION_PAGE_FAULT || code == EXC_LOAD_PAGE_FAULT || code
            == EXC_ILLEGAL_INSTRUCTION) ==> r is None,
{
    if is_interrupt {
        if code == INT_SUPERVISOR_TIMER {
            Some(TrapType::Time(scause_bits))
        } else if code == INT_SUPERVISOR_EXTERNAL {
            Some(TrapType::SupervisorExternal)
        } else {
            None
        }
    } else {
        if code == EXC_BREAKPOINT {
            self_breakpoint_step(tf);
            Some(TrapType::Breakpoint)
        } else if code == EXC_LOAD_FAULT {
            if stval as u64 > VIRT_ADDR_START {
                None
            } else {
                Some(TrapType::Unknown)
            }
        } else if code == EXC_USER_ENV_CALL {
            Some(TrapType::UserEnvCall)
        } else if code == EXC_STORE_PAGE_FAULT {
            Some(TrapType::StorePageFault(stval))
        } else if code == EXC_INSTRUCTION_PAGE_FAULT {
            Some(TrapType::InstructionPageFault(stval))
        } else if code == EXC_LOAD_PAGE_FAULT {
            Some(TrapType::LoadPageFault(stval))
        } else if code == EXC_ILLEGAL_INSTRUCTION {
            Some(TrapType::IllegalInstruction(stval))
        } else {
            None
        }
    }
}

/// Steps the saved program counter past a 2-byte breakpoint instruction.
fn self_breakpoint_step(tf: &mut TrapFrame)
    requires
        old(tf).wf(),
        old(tf).sepc + 2 <= usize::MAX,
    ensures
        final(tf).wf(),
        final(tf).x@ == old(tf).x@,
        final(tf).sstatus == old(tf).sstatus,
        final(tf).sepc == old(tf).sepc + 2,
{
    self_set_sepc(tf, tf.sepc + 2);
}

/// Writes the saved program counter.
fn self_set_sepc(tf: &mut TrapFrame, sepc: usize)
    requires
        old(tf).wf(),
    ensures
        final(tf).wf(),
        final(tf).x@ == old(tf).x@,
        final(tf).sstatus == old(tf).sstatus,
        final(tf).sepc == sepc,
{
    tf.sepc = sepc;
}

/// The access that faulted, as handed to the page-fault handler.
#[derive(Clone, Copy, PartialEq, Eq, Structural, Debug)]
pub struct PageFaultFlags {
    /// The access was a read.
    pub read: bool,
    /// The access was a write.
    pub write: bool,
    /// The access was an instruction fetch.
    pub execute: bool,
    /// The access came from user mode.
    pub user: bool,
}

/// What the trap handler decides to do for a classified trap; the caller
/// performs the action.
#[derive(Clone, PartialEq, Eq, Debug)]
pub enum TrapAction {
    /// Report the breakpoint and return.
    Breakpoint,
    /// Run the timer-interrupt hook with the given cause bits.
    HandleIrq(usize),
    /// Run the given syscall; its result is written back into the frame's
    /// return slot afterwards.
    Syscall { id: usize, args: Vec<usize> },
    /// Resolve a page fault at the given address with the given access.
    PageFault { addr: usize, flags: PageFaultFlags },
    /// Halt with a diagnostic dump: the trap is one the kernel cannot
    /// survive, a page fault from kernel mode among them.
    Fatal,
}

/// Decides what to do for a classified trap, as the trap boundary hands
/// them in. A syscall steps the program counter past the syscall
/// instruction before the syscall runs, so the task resumes after it; a
/// page fault from kernel mode is fatal by design.
pub fn riscv_trap_handler(tf: &mut TrapFrame, from_user: bool, trap_type: TrapType) -> (r:
    TrapAction)
    requires
        old(tf).wf(),
        trap_type == TrapType::UserEnvCall ==> old(tf).sepc + 4 <= usize::MAX,
    ensures
        final(tf).wf(),
        trap_type != TrapType::UserEnvCall ==> final(tf).same_frame(*old(tf)),
        trap_type == TrapType::Breakpoint ==> r == TrapAction::Breakpoint,
        trap_type matches TrapType::Time(irq) ==> r == TrapAction::HandleIrq(irq),
        trap_type == TrapType::UserEnvCall ==> final(tf).sepc == old(tf).sepc + 4
            && final(tf).x@ == old(tf).x@ && final(tf).sstatus == old(tf).sstatus && (r matches
            TrapAction::Syscall { id, args } && id == old(tf).spec_reg(ContextArgs::SYSCALL)
            && args@ == old(tf).x@.subrange(10, 16)),
        trap_type matches TrapType::InstructionPageFault(addr) ==> r == (if from_user {
            TrapAction::PageFault {
                addr,
                flags: PageFaultFlags { read: false, write: false, execute: true, user: true },
            }
        } else {
            TrapAction::Fatal
        }),
        trap_type matches TrapType::LoadPageFault(addr) ==> r == (if from_user {
            TrapAction::PageFault {
                addr,
                flags: PageFaultFlags { read: true, write: false, execute: false, user: true },
            }
        } else {
            TrapAction::Fatal
        }),
        trap_type matches TrapType::StorePageFault(addr) ==> r == (if from_user {
            TrapAction::PageFault {
                addr,
                flags: PageFaultFlags { read: false, write: true, execute: false, user: true },
            }
        } else {
            TrapAction::Fatal
        }),
        (trap_type == TrapType::Unknown || trap_type == TrapType::SupervisorExternal || trap_type
            matches TrapType::IllegalInstruction(_)) ==> r == TrapAction::Fatal,
{
    match trap_type {
        TrapType::Breakpoint => TrapAction::Breakpoint,
        TrapType::Time(irq) => TrapAction::HandleIrq(irq),
        TrapType::UserEnvCall => {
            let id = tf.reg(ContextArgs::SYSCALL);
            let args = tf.args();
            self_set_sepc(tf, tf.sepc + 4);
            TrapAction::Syscall { id, args }
        },
        TrapType::InstructionPageFault(addr) => {
            if from_user {
                TrapAction::PageFault {
                    addr,
                    flags: PageFaultFlags { read: false, write: false, execute: true, user: true },
                }
            } else {
                TrapAction::Fatal
            }
        },
        TrapType::LoadPageFault(addr) => {
            if from_user {
                TrapAction::PageFault {
                    addr,
                    flags: PageFaultFlags { read: true, write: false, execute: false, user: true },
                }
            } else {
                TrapAction::Fatal
            }
        },
        TrapType::StorePageFault(addr) => {
            if from_user {
                TrapAction::PageFault {
                    addr,
                    flags: PageFaultFlags { read: false, write: true, execute: false, user: true },
                }
            } else {
                TrapAction::Fatal
            }
        },
        TrapType::Unknown => TrapAction::Fatal,
        TrapType::SupervisorExternal => TrapAction::Fatal,
        TrapType::IllegalInstruction(_) => TrapAction::Fatal,
    }
}

/// Replaces one element of a vector.
fn vec_set(v: &mut Vec<usize>, i: usize, val: usize)
    requires
        i < old(v)@.len(),
    ensures
        final(v)@ == old(v)@.update(i as int, val),
{
    let r = &mut v[i];
    *r = val;
}

} // verus!
