use aarch32_rt::registers::BpIAll;
use aarch32_rt::registers::CacheType;
use aarch32_rt::registers::Ccsidr;
use aarch32_rt::registers::Csselr;
use aarch32_rt::registers::Drbar;
use aarch32_rt::registers::Hmpuir;
use aarch32_rt::registers::Hprbar;
use aarch32_rt::registers::Hprlar;
use aarch32_rt::registers::Hprselr;
use aarch32_rt::registers::Hsctlr;
use aarch32_rt::registers::Hvbar;
use aarch32_rt::registers::IdIsar1;
use aarch32_rt::registers::IdMmfr3;
use aarch32_rt::registers::Prbar15;
use aarch32_rt::registers::Revidr;
use aarch32_rt::registers::Rvbar;
use aarch32_rt::registers::Shareability;
use aarch32_rt::registers::AccessPerms;
use aarch32_rt::registers::TlbIAll;
use aarch32_rt::registers::Vbar;
use aarch32_rt::sysreg::SysRegBank;
use aarch32_rt::sysreg::SysRegId;

fn tuple(id: SysRegId) -> (u32, u32, u32, u32, u32) {
    (id.cp, id.crn, id.op1, id.crm, id.op2)
}

#[test]
fn encodings_match_architecture_manual() {
    assert_eq!(tuple(Vbar::reg_id()), (15, 12, 0, 0, 0));
    assert_eq!(tuple(Hvbar::reg_id()), (15, 12, 4, 0, 0));
    assert_eq!(tuple(Rvbar::reg_id()), (15, 12, 0, 0, 1));
    assert_eq!(tuple(Revidr::reg_id()), (15, 0, 0, 0, 6));
    assert_eq!(tuple(IdIsar1::reg_id()), (15, 0, 0, 2, 1));
    assert_eq!(tuple(IdMmfr3::reg_id()), (15, 0, 0, 1, 7));
    assert_eq!(tuple(Drbar::reg_id()), (15, 6, 0, 1, 0));
    assert_eq!(tuple(Hprselr::reg_id()), (15, 6, 4, 2, 1));
    assert_eq!(tuple(Hprbar::reg_id()), (15, 6, 4, 3, 0));
    assert_eq!(tuple(Hprlar::reg_id()), (15, 6, 4, 3, 1));
    assert_eq!(tuple(Prbar15::reg_id()), (15, 6, 0, 15, 4));
    assert_eq!(tuple(TlbIAll::reg_id()), (15, 8, 0, 7, 0));
    assert_eq!(tuple(BpIAll::reg_id()), (15, 7, 0, 5, 6));
    assert_eq!(tuple(Csselr::reg_id()), (15, 0, 2, 0, 0));
    assert_eq!(tuple(Ccsidr::reg_id()), (15, 0, 1, 0, 0));
    assert_eq!(tuple(Hmpuir::reg_id()), (15, 0, 4, 0, 4));
    assert_eq!(tuple(Hsctlr::reg_id()), (15, 1, 4, 0, 0));
}

#[test]
fn keys_pack_one_digit_per_field() {
    assert_eq!(Vbar::reg_id().key(), 0xF0C00);
    assert_eq!(Hvbar::reg_id().key(), 0xF4C00);
    assert_eq!(TlbIAll::reg_id().key(), 0xF0870);
}

#[test]
fn distinct_registers_have_distinct_keys() {
    let keys = [
        Vbar::reg_id().key(),
        Hvbar::reg_id().key(),
        Rvbar::reg_id().key(),
        Revidr::reg_id().key(),
        IdIsar1::reg_id().key(),
        IdMmfr3::reg_id().key(),
        Drbar::reg_id().key(),
        Hprselr::reg_id().key(),
        Hprbar::reg_id().key(),
        Hprlar::reg_id().key(),
        Prbar15::reg_id().key(),
        TlbIAll::reg_id().key(),
        BpIAll::reg_id().key(),
        Csselr::reg_id().key(),
        Ccsidr::reg_id().key(),
        Hmpuir::reg_id().key(),
        Hsctlr::reg_id().key(),
    ];
    for i in 0..keys.len() {
        for j in 0..keys.len() {
            if i != j {
                assert_ne!(keys[i], keys[j]);
            }
        }
    }
}

#[test]
fn written_value_reads_back() {
    // a register-access write followed by a read returns the written value
    let mut bank = SysRegBank::new();
    Vbar::write(&mut bank, Vbar(0x8000));
    assert_eq!(Vbar::read(&bank).0, 0x8000);
    Vbar::write(&mut bank, Vbar(0xC000));
    assert_eq!(Vbar::read(&bank).0, 0xC000);
}

#[test]
fn writes_do_not_leak_across_registers() {
    let mut bank = SysRegBank::new();
    Vbar::write(&mut bank, Vbar(0x8000));
    Hvbar::write(&mut bank, Hvbar(0x4000));
    Drbar::write(&mut bank, Drbar(0x2000));
    assert_eq!(Vbar::read(&bank).0, 0x8000);
    assert_eq!(Hvbar::read(&bank).0, 0x4000);
    assert_eq!(Drbar::read(&bank).0, 0x2000);
    assert_eq!(Rvbar::read(&bank).0, 0);
}

#[test]
fn bank_modify_applies_the_transformation() {
    let mut bank = SysRegBank::new();
    bank.write(7, 0x10);
    bank.modify(7, |v| v | 1);
    assert_eq!(bank.read(7), 0x11);
}

#[test]
fn hsctlr_modify_reads_transforms_writes() {
    let mut bank = SysRegBank::new();
    Hsctlr::write(&mut bank, Hsctlr::new_with_raw_value(0x4000_0000));
    Hsctlr::modify(&mut bank, |h| Hsctlr::new_with_raw_value(h.raw_value() | 1));
    let after = Hsctlr::read(&bank);
    assert_eq!(after.raw_value(), 0x4000_0001);
    assert!(after.te());
    assert!(after.m());
}

#[test]
fn hsctlr_fields_read_their_bits() {
    let h = Hsctlr::new_with_raw_value(0x4228_1187);
    assert!(h.te());
    assert!(h.ee());
    assert!(h.fi());
    assert!(h.wxn());
    assert!(!h.br());
    assert!(h.i());
    assert!(h.sed());
    assert!(h.itd());
    assert!(!h.cp15ben());
    assert!(h.c());
    assert!(h.a());
    assert!(h.m());
}

#[test]
fn csselr_packs_level_and_type() {
    let c = Csselr::new(2, CacheType::Instruction);
    assert_eq!(c.raw_value(), 0b101);
    assert_eq!(c.level(), 2);
    assert_eq!(c.cache_type(), CacheType::Instruction);
    let d = Csselr::new(0, CacheType::DataOrUnified);
    assert_eq!(d.raw_value(), 0);
    assert_eq!(d.cache_type(), CacheType::DataOrUnified);
}

#[test]
fn ccsidr_fields_read_their_bits() {
    // 4-way 32 KiB cache with 32-byte lines: 255 sets, associativity 3,
    // line size 1
    let raw = (255u32 << 13) | (3 << 3) | 1;
    let c = Ccsidr::new_with_raw_value(raw);
    assert_eq!(c.num_sets(), 255);
    assert_eq!(c.associativity(), 3);
    assert_eq!(c.line_size(), 1);
    assert!(!c.write_through());
    let full = Ccsidr::new_with_raw_value(0xF000_0000);
    assert!(full.write_through());
    assert!(full.write_back());
    assert!(full.read_alloc());
    assert!(full.write_alloc());
}

#[test]
fn hprbar_fields_read_their_bits() {
    let raw = (0x123u32 << 6) | (0b10 << 3) | (0b01 << 1) | 1;
    let r = Hprbar::new_with_raw_value(raw);
    assert_eq!(r.base(), 0x123);
    assert_eq!(r.shareability(), Shareability::OuterShareable);
    assert_eq!(r.access_perms(), AccessPerms::ReadWrite);
    assert!(r.nx());
}

#[test]
fn hprlar_fields_read_their_bits() {
    let raw = (0x456u32 << 6) | (0b101 << 1) | 1;
    let r = Hprlar::new_with_raw_value(raw);
    assert_eq!(r.limit(), 0x456);
    assert_eq!(r.mair(), 5);
    assert!(r.enabled());
}

#[test]
fn hmpuir_reports_region_count() {
    let mut bank = SysRegBank::new();
    bank.write(Hmpuir::reg_id().key(), 0xABCD_0010);
    assert_eq!(Hmpuir::read(&bank).region(), 0x10);
}

#[test]
fn maintenance_ops_record_their_issue() {
    let mut bank = SysRegBank::new();
    TlbIAll::write(&mut bank);
    BpIAll::write(&mut bank);
    assert_eq!(bank.entries.len(), 2);
    assert_eq!(bank.entries[0], (TlbIAll::reg_id().key(), 0));
    assert_eq!(bank.entries[1], (BpIAll::reg_id().key(), 0));
}
