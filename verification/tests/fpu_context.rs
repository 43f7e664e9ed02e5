use aarch32_rt::context::restore_context_fpu;
use aarch32_rt::context::save_context_fpu;
use aarch32_rt::context::FpuContext;
use aarch32_rt::context::ScratchRegs;
use aarch32_rt::context::Stack;
use aarch32_rt::startup::fpu_enable;

fn d16_state() -> FpuContext {
    // d0 to d7 of a sixteen-register unit: sixteen words
    FpuContext {
        dwords: (0..16u32).map(|i| 0x1000 + i).collect(),
        fpscr: 0x0300_0000,
        fpexc: 0x4000_0000,
    }
}

#[test]
fn fpu_save_then_restore_is_identity() {
    let regs = ScratchRegs { r0: 1, r1: 2, r2: 3, r3: 4, r12: 12 };
    let fpu = d16_state();
    let mut stack = Stack::new(0x1000);
    stack.push(0xAAAA);
    let before = stack.words.clone();
    save_context_fpu(&mut stack, &regs, &fpu);
    assert_eq!(stack.sp() % 8, 0);
    let (r, f) = restore_context_fpu(&mut stack, 16);
    assert_eq!(r, regs);
    assert_eq!(f.dwords, fpu.dwords);
    assert_eq!(f.fpscr, fpu.fpscr);
    assert_eq!(f.fpexc, fpu.fpexc);
    assert_eq!(stack.words, before);
}

#[test]
fn fpu_save_records_alignment() {
    // the two status words flip parity: an even stack needs padding here
    let regs = ScratchRegs { r0: 0, r1: 0, r2: 0, r3: 0, r12: 0 };
    let fpu = d16_state();
    let mut stack = Stack::new(0x1000);
    save_context_fpu(&mut stack, &regs, &fpu);
    // 4 scratch + 16 doubles + 2 status = 22 words (even): no padding
    assert_eq!(stack.words.len(), 24);
    assert_eq!(stack.words[22], 0);

    let mut odd = Stack::new(0x1000);
    odd.push(7);
    save_context_fpu(&mut odd, &regs, &fpu);
    assert_eq!(odd.words.len(), 26);
    assert_eq!(odd.words[23], 0);
    assert_eq!(odd.words[24], 4);
    assert_eq!(odd.sp() % 8, 0);
}

#[test]
fn fpu_enable_grants_access_and_sets_enable() {
    let (cpacr, fpexc) = fpu_enable(0x0000_0055);
    assert_eq!(cpacr, 0x00F0_0055);
    assert_eq!(fpexc, 0x4000_0000);
    let (cpacr2, _) = fpu_enable(0xFFFF_FFFF);
    assert_eq!(cpacr2, 0xFFFF_FFFF);
}
