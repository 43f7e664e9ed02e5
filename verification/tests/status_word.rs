use aarch32_rt::cpsr::Cpsr;
use aarch32_rt::cpsr::ProcessorMode;

#[test]
fn mode_encodings_match_architecture() {
    assert_eq!(ProcessorMode::Usr.bits(), 0x10);
    assert_eq!(ProcessorMode::Fiq.bits(), 0x11);
    assert_eq!(ProcessorMode::Irq.bits(), 0x12);
    assert_eq!(ProcessorMode::Svc.bits(), 0x13);
    assert_eq!(ProcessorMode::Mon.bits(), 0x16);
    assert_eq!(ProcessorMode::Abt.bits(), 0x17);
    assert_eq!(ProcessorMode::Hyp.bits(), 0x1A);
    assert_eq!(ProcessorMode::Und.bits(), 0x1B);
    assert_eq!(ProcessorMode::Sys.bits(), 0x1F);
}

#[test]
fn mode_decoding_inverts_encoding() {
    let modes = [
        ProcessorMode::Usr,
        ProcessorMode::Fiq,
        ProcessorMode::Irq,
        ProcessorMode::Svc,
        ProcessorMode::Mon,
        ProcessorMode::Abt,
        ProcessorMode::Hyp,
        ProcessorMode::Und,
        ProcessorMode::Sys,
    ];
    for m in modes {
        assert_eq!(ProcessorMode::from_bits(m.bits()), Some(m));
    }
    assert_eq!(ProcessorMode::from_bits(0x00), None);
    assert_eq!(ProcessorMode::from_bits(0x15), None);
}

#[test]
fn status_word_fields_read_their_bits() {
    let c = Cpsr::new_with_raw_value(0x6000_00F3);
    assert_eq!(c.mode(), Some(ProcessorMode::Svc));
    assert!(c.t());
    assert!(c.f());
    assert!(c.i());
    assert!(!c.n());
    assert!(c.z());
    assert!(c.c());
    assert!(!c.v());
}

#[test]
fn with_mode_replaces_only_the_mode_field() {
    let c = Cpsr::new_with_raw_value(0x8000_00F3);
    let d = c.with_mode(ProcessorMode::Irq);
    assert_eq!(d.mode(), Some(ProcessorMode::Irq));
    assert!(d.t());
    assert!(d.f());
    assert!(d.i());
    assert_eq!(d.raw_value() & 0xFFFF_FF00, 0x8000_0000);
}

#[test]
fn bit_setters_round_trip() {
    let c = Cpsr::new_with_raw_value(0x10);
    assert!(c.with_t(true).t());
    assert!(!c.with_t(true).with_t(false).t());
    assert!(c.with_i(true).i());
    assert!(!c.with_i(true).with_i(false).i());
    assert!(c.with_f(true).f());
    assert!(!c.with_f(true).with_f(false).f());
}

#[test]
fn entry_word_masks_both_interrupt_sources() {
    let w = Cpsr::entry_word(ProcessorMode::Und);
    assert_eq!(w.mode(), Some(ProcessorMode::Und));
    assert!(w.i());
    assert!(w.f());
    assert!(!w.t());
    assert_eq!(w.raw_value(), 0xDB);
}
