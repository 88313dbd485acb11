use axtask::trap::kernel_callback;
use axtask::trap::riscv_trap_handler;
use axtask::trap::ContextArgs;
use axtask::trap::PageFaultFlags;
use axtask::trap::TrapAction;
use axtask::trap::TrapFrame;
use axtask::trap::TrapType;
use axtask::trap::EXC_BREAKPOINT;
use axtask::trap::EXC_LOAD_FAULT;
use axtask::trap::EXC_USER_ENV_CALL;
use axtask::trap::INT_SUPERVISOR_TIMER;

#[test]
fn breakpoint_steps_past_the_instruction() {
    let mut tf = TrapFrame::new(0);
    tf.set_reg(ContextArgs::SEPC, 0x8000_0000);
    let t = kernel_callback(&mut tf, false, EXC_BREAKPOINT, 0, 0);
    assert_eq!(t, Some(TrapType::Breakpoint));
    assert_eq!(tf.reg(ContextArgs::SEPC), 0x8000_0002);
}

#[test]
fn timer_interrupt_classifies_with_cause_bits() {
    let mut tf = TrapFrame::new(0);
    let bits = (1usize << 63) | 5;
    let t = kernel_callback(&mut tf, true, INT_SUPERVISOR_TIMER, bits, 0);
    assert_eq!(t, Some(TrapType::Time(bits)));
}

#[test]
fn load_fault_on_kernel_address_is_fatal() {
    let mut tf = TrapFrame::new(0);
    // A faulting address above the kernel window: fatal.
    let t = kernel_callback(&mut tf, false, EXC_LOAD_FAULT, 0, usize::MAX);
    assert_eq!(t, None);
    // A low address: survivable, classified as unknown.
    let t = kernel_callback(&mut tf, false, EXC_LOAD_FAULT, 0, 0x1000);
    assert_eq!(t, Some(TrapType::Unknown));
}

#[test]
fn unknown_cause_is_fatal() {
    let mut tf = TrapFrame::new(0);
    assert_eq!(kernel_callback(&mut tf, false, 999, 0, 0), None);
    assert_eq!(kernel_callback(&mut tf, true, 999, 0, 0), None);
}

#[test]
fn syscall_dispatch_reads_number_and_args_and_advances() {
    let mut tf = TrapFrame::new(0);
    tf.set_reg(ContextArgs::SEPC, 0x100);
    tf.set_reg(ContextArgs::SYSCALL, 93);
    tf.set_reg(ContextArgs::ARG0, 11);
    tf.set_reg(ContextArgs::ARG1, 22);
    tf.set_reg(ContextArgs::ARG2, 33);
    let action = riscv_trap_handler(&mut tf, true, TrapType::UserEnvCall);
    match action {
        TrapAction::Syscall { id, args } => {
            assert_eq!(id, 93);
            assert_eq!(args, vec![11, 22, 33, 0, 0, 0]);
        },
        other => panic!("expected a syscall action, got {:?}", other),
    }
    assert_eq!(tf.reg(ContextArgs::SEPC), 0x104);
    // The syscall's result lands in the return slot afterwards.
    tf.set_reg(ContextArgs::RET, 0);
    assert_eq!(tf.reg(ContextArgs::RET), 0);
}

#[test]
fn page_fault_from_user_carries_access_flags() {
    let mut tf = TrapFrame::new(0);
    let action = riscv_trap_handler(&mut tf, true, TrapType::StorePageFault(0x4000));
    assert_eq!(
        action,
        TrapAction::PageFault {
            addr: 0x4000,
            flags: PageFaultFlags { read: false, write: true, execute: false, user: true },
        }
    );
    let action = riscv_trap_handler(&mut tf, true, TrapType::LoadPageFault(0x5000));
    assert_eq!(
        action,
        TrapAction::PageFault {
            addr: 0x5000,
            flags: PageFaultFlags { read: true, write: false, execute: false, user: true },
        }
    );
    let action = riscv_trap_handler(&mut tf, true, TrapType::InstructionPageFault(0x6000));
    assert_eq!(
        action,
        TrapAction::PageFault {
            addr: 0x6000,
            flags: PageFaultFlags { read: false, write: false, execute: true, user: true },
        }
    );
}

#[test]
fn page_fault_from_kernel_is_fatal() {
    let mut tf = TrapFrame::new(0);
    let action = riscv_trap_handler(&mut tf, false, TrapType::LoadPageFault(0x5000));
    assert_eq!(action, TrapAction::Fatal);
}

#[test]
fn user_env_call_classifies() {
    let mut tf = TrapFrame::new(0);
    let t = kernel_callback(&mut tf, false, EXC_USER_ENV_CALL, 8, 0);
    assert_eq!(t, Some(TrapType::UserEnvCall));
}

#[test]
fn app_init_context_prepares_user_entry() {
    let sstatus = 0xffff_ffff;
    let tf = TrapFrame::app_init_context(0x1_0000, 0x7fff_0000, sstatus, 2, 0x7fff_0008);
    assert_eq!(tf.reg(ContextArgs::SEPC), 0x1_0000);
    assert_eq!(tf.reg(ContextArgs::SP), 0x7fff_0000);
    assert_eq!(tf.reg(ContextArgs::ARG0), 2);
    assert_eq!(tf.reg(ContextArgs::ARG1), 0x7fff_0008);
    // Privilege bit and interrupt-enable bit are both cleared.
    assert_eq!(tf.sstatus & 0x100, 0);
    assert_eq!(tf.sstatus & 0x2, 0);
}

#[test]
fn syscall_ok_advances_program_counter() {
    let mut tf = TrapFrame::new(0);
    tf.set_reg(ContextArgs::SEPC, 0x200);
    tf.syscall_ok();
    assert_eq!(tf.reg(ContextArgs::SEPC), 0x204);
}
