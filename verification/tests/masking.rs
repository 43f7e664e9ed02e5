use aarch32_rt::cpsr::Cpsr;
use aarch32_rt::cpsr::ProcessorMode;
use aarch32_rt::irqmask::core_id;
use aarch32_rt::irqmask::free_enter;
use aarch32_rt::irqmask::free_exit;
use aarch32_rt::irqmask::irq_disable;
use aarch32_rt::irqmask::irq_enable;

#[test]
fn disable_sets_only_the_irq_mask() {
    let c = Cpsr::new_with_raw_value(0x1F);
    let d = irq_disable(c);
    assert!(d.i());
    assert_eq!(d.mode(), Some(ProcessorMode::Sys));
    assert!(!d.f());
    assert!(!d.t());
}

#[test]
fn enable_clears_only_the_irq_mask() {
    let c = Cpsr::new_with_raw_value(0xDF);
    let e = irq_enable(c);
    assert!(!e.i());
    assert!(e.f());
    assert_eq!(e.mode(), Some(ProcessorMode::Sys));
}

#[test]
fn scoped_mask_restores_a_set_mask() {
    // mask was set before the section: still set after, even though the
    // wrapped code unmasked
    let mut c = Cpsr::new_with_raw_value(0x9F);
    let saved = free_enter(&mut c);
    assert!(saved);
    assert!(c.i());
    // wrapped code unmasks interrupts
    c = irq_enable(c);
    assert!(!c.i());
    free_exit(&mut c, saved);
    assert!(c.i());
    assert_eq!(c.mode(), Some(ProcessorMode::Sys));
}

#[test]
fn scoped_mask_restores_a_clear_mask() {
    // mask was clear before the section: clear again after, even though
    // the wrapped code masked further
    let mut c = Cpsr::new_with_raw_value(0x1F);
    let saved = free_enter(&mut c);
    assert!(!saved);
    assert!(c.i());
    // wrapped code masks again on its own
    c = irq_disable(c);
    free_exit(&mut c, saved);
    assert!(!c.i());
    assert_eq!(c.mode(), Some(ProcessorMode::Sys));
}

#[test]
fn core_id_keeps_low_24_bits() {
    assert_eq!(core_id(0xFF00_0003), 3);
    assert_eq!(core_id(0x0012_3456), 0x12_3456);
    assert_eq!(core_id(0xFFFF_FFFF), 0x00FF_FFFF);
}
