use aarch32_rt::context::data_abort_entry;
use aarch32_rt::context::exception_exit;
use aarch32_rt::context::exception_exit_to;
use aarch32_rt::context::irq_entry;
use aarch32_rt::context::irq_exit;
use aarch32_rt::context::prefetch_abort_entry;
use aarch32_rt::context::restore_context;
use aarch32_rt::context::save_context;
use aarch32_rt::context::svc_entry;
use aarch32_rt::context::undefined_entry;
use aarch32_rt::context::ScratchRegs;
use aarch32_rt::context::Stack;
use aarch32_rt::cpsr::Cpsr;

fn scratch(seed: u32) -> ScratchRegs {
    ScratchRegs {
        r0: seed,
        r1: seed.wrapping_add(1),
        r2: seed.wrapping_add(2),
        r3: seed.wrapping_add(3),
        r12: seed.wrapping_add(12),
    }
}

#[test]
fn save_then_restore_is_identity() {
    let mut stack = Stack::new(0x1000);
    stack.push(0xDEAD_BEEF);
    let before = stack.words.clone();
    let regs = scratch(0x100);
    save_context(&mut stack, &regs);
    let restored = restore_context(&mut stack);
    assert_eq!(restored, regs);
    assert_eq!(stack.words, before);
}

#[test]
fn save_records_alignment_padding() {
    // An odd word count leaves the stack pointer off the eight-byte
    // boundary; the save inserts one padding word and records four bytes.
    let mut stack = Stack::new(0x1000);
    stack.push(1);
    save_context(&mut stack, &scratch(0));
    // frame: r0 r1 r2 r3 pad0 padbytes r12 on top of the one word
    assert_eq!(stack.words.len(), 8);
    assert_eq!(stack.words[5], 0);
    assert_eq!(stack.words[6], 4);
    assert_eq!(stack.sp() % 8, 0);

    let mut even = Stack::new(0x1000);
    save_context(&mut even, &scratch(0));
    assert_eq!(even.words.len(), 6);
    assert_eq!(even.words[4], 0);
    assert_eq!(even.sp() % 8, 0);
}

#[test]
fn undefined_entry_adjusts_by_state() {
    let spsr_arm = Cpsr::new_with_raw_value(0x13);
    let mut stack = Stack::new(0x1000);
    let arg = undefined_entry(&mut stack, 0x8004, spsr_arm, &scratch(7));
    assert_eq!(arg, 0x8000);

    let spsr_thumb = Cpsr::new_with_raw_value(0x33);
    let mut stack2 = Stack::new(0x1000);
    let arg2 = undefined_entry(&mut stack2, 0x8004, spsr_thumb, &scratch(7));
    assert_eq!(arg2, 0x8002);
}

#[test]
fn abort_entries_pass_faulting_address() {
    let spsr = Cpsr::new_with_raw_value(0x17);
    let mut stack = Stack::new(0x1000);
    assert_eq!(prefetch_abort_entry(&mut stack, 0x9004, spsr, &scratch(1)), 0x9000);
    let mut stack2 = Stack::new(0x1000);
    assert_eq!(data_abort_entry(&mut stack2, 0x9008, spsr, &scratch(1)), 0x9000);
}

#[test]
fn exception_exit_resumes_at_captured_address() {
    let spsr = Cpsr::new_with_raw_value(0x13);
    let mut stack = Stack::new(0x1000);
    let regs = scratch(0x40);
    let imm = svc_entry(&mut stack, 0x8008, spsr, &regs, 0xEF00_0007);
    assert_eq!(imm, 7);
    let exit = exception_exit(&mut stack);
    assert_eq!(exit.regs, regs);
    assert_eq!(exit.ret.address, 0x8008);
    assert_eq!(exit.ret.status, spsr);
    assert_eq!(stack.words.len(), 0);
}

#[test]
fn exception_exit_to_takes_handler_choice() {
    // A handler that returns a resume address overrides the captured one.
    let spsr = Cpsr::new_with_raw_value(0x1B);
    let mut stack = Stack::new(0x1000);
    let regs = scratch(0x60);
    let fault = undefined_entry(&mut stack, 0x8004, spsr, &regs);
    let exit = exception_exit_to(&mut stack, fault + 4);
    assert_eq!(exit.regs, regs);
    assert_eq!(exit.ret.address, 0x8004);
    assert_eq!(exit.ret.status, spsr);
    assert_eq!(stack.words.len(), 0);
}

#[test]
fn irq_round_trip_restores_everything() {
    let spsr = Cpsr::new_with_raw_value(0x10);
    let mut stack = Stack::new(0x1000);
    let regs = scratch(0x80);
    irq_entry(&mut stack, 0x7004, spsr, 0x1234_5678, &regs);
    let exit = irq_exit(&mut stack);
    assert_eq!(exit.regs, regs);
    assert_eq!(exit.lr_sys, 0x1234_5678);
    assert_eq!(exit.ret.address, 0x7000);
    assert_eq!(exit.ret.status, spsr);
    assert_eq!(stack.words.len(), 0);
}

#[test]
fn nested_irq_preserves_first_invocations_link_register() {
    // First interrupt arrives; its handler unmasks interrupts and a second
    // interrupt preempts it. After the second returns, the first completes
    // with its own saved link register and return address intact.
    let spsr1 = Cpsr::new_with_raw_value(0x10);
    let spsr2 = Cpsr::new_with_raw_value(0x1F);
    let lr_sys_first = 0xAAAA_0001;
    let lr_sys_second = 0xBBBB_0002;
    let regs1 = scratch(0x10);
    let regs2 = scratch(0x90);

    let mut stack = Stack::new(0x2000);
    irq_entry(&mut stack, 0x7004, spsr1, lr_sys_first, &regs1);
    let after_first_entry = stack.words.clone();

    // second interrupt preempts the first handler
    irq_entry(&mut stack, 0x6008, spsr2, lr_sys_second, &regs2);
    let second = irq_exit(&mut stack);
    assert_eq!(second.lr_sys, lr_sys_second);
    assert_eq!(second.ret.address, 0x6004);
    assert_eq!(second.ret.status, spsr2);

    // the first invocation's frame is untouched
    assert_eq!(stack.words, after_first_entry);

    let first = irq_exit(&mut stack);
    assert_eq!(first.regs, regs1);
    assert_eq!(first.lr_sys, lr_sys_first);
    assert_eq!(first.ret.address, 0x7000);
    assert_eq!(first.ret.status, spsr1);
    assert_eq!(stack.words.len(), 0);
}
