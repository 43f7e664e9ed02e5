use aarch32_rt::cpsr::Cpsr;
use aarch32_rt::cpsr::ProcessorMode;
use aarch32_rt::startup::clear_te;
use aarch32_rt::startup::copy_region;
use aarch32_rt::startup::hyp_descent;
use aarch32_rt::startup::init_segments;
use aarch32_rt::startup::partition_stacks;
use aarch32_rt::startup::run_startup;
use aarch32_rt::startup::zero_region;
use aarch32_rt::startup::DataLayout;
use aarch32_rt::startup::GpRegs;
use aarch32_rt::startup::StackSizes;

fn four_k_each() -> StackSizes {
    StackSizes { hyp: 0, und: 0x1000, svc: 0x1000, abt: 0x1000, irq: 0x1000, fiq: 0x1000 }
}

#[test]
fn partition_carves_downward_in_fixed_order() {
    // 64 KiB of stack space, 4 KiB per secondary mode.
    let a = partition_stacks(0x1_0000, &four_k_each());
    assert_eq!(a.hyp_sp, 0x1_0000);
    assert_eq!(a.und_sp, 0x1_0000);
    assert_eq!(a.svc_sp, 0xF000);
    assert_eq!(a.abt_sp, 0xE000);
    assert_eq!(a.irq_sp, 0xD000);
    assert_eq!(a.fiq_sp, 0xC000);
    // System mode receives all remaining space below the reserved regions.
    assert_eq!(a.sys_sp, 0xB000);
}

#[test]
fn partition_regions_do_not_overlap() {
    let sizes = four_k_each();
    let a = partition_stacks(0x1_0000, &sizes);
    // each region is [sp - size, sp); stacked strictly downward
    let regions = [
        (a.und_sp - sizes.und, a.und_sp),
        (a.svc_sp - sizes.svc, a.svc_sp),
        (a.abt_sp - sizes.abt, a.abt_sp),
        (a.irq_sp - sizes.irq, a.irq_sp),
        (a.fiq_sp - sizes.fiq, a.fiq_sp),
    ];
    for i in 0..regions.len() {
        for j in 0..regions.len() {
            if i != j {
                let (lo1, hi1) = regions[i];
                let (lo2, hi2) = regions[j];
                assert!(hi1 <= lo2 || hi2 <= lo1);
            }
        }
    }
    // the System stack lies entirely below every reserved region
    for (lo, _hi) in regions {
        assert!(a.sys_sp <= lo);
    }
}

#[test]
fn partition_with_hyp_region_reserves_it_first() {
    let mut sizes = four_k_each();
    sizes.hyp = 0x2000;
    let a = partition_stacks(0x1_0000, &sizes);
    assert_eq!(a.hyp_sp, 0x1_0000);
    assert_eq!(a.und_sp, 0xE000);
    assert_eq!(a.sys_sp, 0x9000);
}

#[test]
fn partition_is_idempotent() {
    // Two runs from the same top with the same constants assign identical
    // stack pointers to every mode.
    let sizes = four_k_each();
    let first = partition_stacks(0x1_0000, &sizes);
    let second = partition_stacks(0x1_0000, &sizes);
    assert_eq!(first, second);
}

#[test]
fn clear_te_clears_only_that_bit() {
    assert_eq!(clear_te(0xFFFF_FFFF), 0xBFFF_FFFF);
    assert_eq!(clear_te(0x4000_0000), 0);
    assert_eq!(clear_te(0x0000_1005), 0x0000_1005);
}

#[test]
fn zero_region_zeroes_exactly_the_range() {
    let mut mem = vec![7u32; 8];
    zero_region(&mut mem, 2, 5);
    assert_eq!(mem, vec![7, 7, 0, 0, 0, 7, 7, 7]);
}

#[test]
fn copy_region_copies_exactly_the_range() {
    let mut mem = vec![0u32; 8];
    let rom = vec![10u32, 11, 12, 13, 14];
    copy_region(&mut mem, 3, &rom, 1, 3);
    assert_eq!(mem, vec![0, 0, 0, 11, 12, 13, 0, 0]);
}

#[test]
fn init_segments_prepares_both_regions() {
    let mut mem = vec![9u32; 12];
    let rom = vec![41u32, 42, 43, 44];
    let layout = DataLayout {
        zero_start: 1,
        zero_end: 4,
        data_start: 6,
        data_count: 3,
        rom_start: 1,
    };
    init_segments(&mut mem, &layout, &rom);
    assert_eq!(mem, vec![9, 0, 0, 0, 9, 9, 42, 43, 44, 9, 9, 9]);
}

#[test]
fn hyp_descent_runs_only_from_hyp_mode() {
    let hyp = Cpsr::new_with_raw_value(0x1A);
    let r = hyp_descent(hyp, 0, 0x10, 0x0F, 0x8000);
    assert!(r.descended);
    assert_eq!(r.cpsr.mode(), Some(ProcessorMode::Sys));
    assert!(r.cpsr.i());
    assert!(r.cpsr.f());
    assert_eq!(r.hvbar, 0x8000);
    assert_eq!(r.hactlr, 0x1F);

    let sys = Cpsr::new_with_raw_value(0x1F);
    let kept = hyp_descent(sys, 3, 4, 0x0F, 0x8000);
    assert!(!kept.descended);
    assert_eq!(kept.cpsr, sys);
    assert_eq!(kept.hvbar, 3);
    assert_eq!(kept.hactlr, 4);
}

#[test]
fn startup_hands_off_in_system_mode_with_interrupts_masked() {
    let sizes = four_k_each();
    let mut mem = vec![5u32; 16];
    let rom = vec![1u32, 2, 3];
    let layout = DataLayout {
        zero_start: 0,
        zero_end: 4,
        data_start: 8,
        data_count: 2,
        rom_start: 1,
    };
    let out = run_startup(0x1_0000, &sizes, 0x4000_1000, &mut mem, &layout, &rom, true, 0x55);
    assert_eq!(out.stacks, partition_stacks(0x1_0000, &sizes));
    assert_eq!(out.sctlr, 0x1000);
    assert_eq!(out.cpacr, 0x00F0_0055);
    assert_eq!(out.fpexc, Some(0x4000_0000));
    assert_eq!(out.cpsr.mode(), Some(ProcessorMode::Sys));
    assert!(out.cpsr.i());
    assert!(out.cpsr.f());
    assert!(!out.cpsr.t());
    assert_eq!(out.regs, GpRegs::zeroed());
    assert_eq!(mem[0..4], [0, 0, 0, 0]);
    assert_eq!(mem[8..10], [2, 3]);
    assert_eq!(mem[4], 5);
    assert_eq!(mem[10], 5);
}

#[test]
fn startup_without_fpu_leaves_the_unit_untouched() {
    let sizes = four_k_each();
    let mut mem = vec![0u32; 4];
    let rom = vec![0u32];
    let layout = DataLayout {
        zero_start: 0,
        zero_end: 0,
        data_start: 0,
        data_count: 0,
        rom_start: 0,
    };
    let out = run_startup(0x1_0000, &sizes, 0, &mut mem, &layout, &rom, false, 0x77);
    assert_eq!(out.cpacr, 0x77);
    assert_eq!(out.fpexc, None);
}
