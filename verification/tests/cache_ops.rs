use aarch32_rt::cache::clean_and_invalidate_l1_data_cache;
use aarch32_rt::cache::clean_data_cache_line_to_poc;
use aarch32_rt::cache::clean_l1_data_cache;
use aarch32_rt::cache::dc_sw_value;
use aarch32_rt::cache::dc_sw_value_with_offsets;
use aarch32_rt::cache::invalidate_data_cache_line_to_poc;
use aarch32_rt::cache::invalidate_l1_data_cache;
use aarch32_rt::cache::Dccimvac;
use aarch32_rt::cache::Dccisw;
use aarch32_rt::cache::Dccmvac;
use aarch32_rt::cache::Dccmvau;
use aarch32_rt::cache::Dccsw;
use aarch32_rt::cache::Dcimvac;
use aarch32_rt::cache::Dcisw;
use aarch32_rt::sysreg::SysRegBank;

fn tuple(id: aarch32_rt::sysreg::SysRegId) -> (u32, u32, u32, u32, u32) {
    (id.cp, id.crn, id.op1, id.crm, id.op2)
}

#[test]
fn maintenance_encodings_match_architecture_manual() {
    assert_eq!(tuple(Dcisw::reg_id()), (15, 7, 0, 6, 2));
    assert_eq!(tuple(Dccsw::reg_id()), (15, 7, 0, 10, 2));
    assert_eq!(tuple(Dccisw::reg_id()), (15, 7, 0, 14, 2));
    assert_eq!(tuple(Dcimvac::reg_id()), (15, 7, 0, 6, 1));
    assert_eq!(tuple(Dccmvac::reg_id()), (15, 7, 0, 10, 1));
    assert_eq!(tuple(Dccmvau::reg_id()), (15, 7, 0, 11, 1));
    assert_eq!(tuple(Dccimvac::reg_id()), (15, 7, 0, 14, 1));
}

#[test]
fn set_way_operand_packs_way_high_set_low() {
    // 4-way associative (log2 = 2), 32-byte lines (log2 = 5)
    assert_eq!(dc_sw_value::<2, 5>(3, 7, 0), (3 << 30) | (7 << 5));
    assert_eq!(dc_sw_value::<2, 5>(0, 0, 1), 1);
    // direct-mapped cache has no way bits
    assert_eq!(dc_sw_value::<0, 5>(0, 9, 0), 9 << 5);
}

#[test]
fn set_way_operand_with_offsets_matches_generic_form() {
    assert_eq!(dc_sw_value_with_offsets(2, 3, 5, 7, 0), dc_sw_value::<2, 5>(3, 7, 0));
    assert_eq!(Dcisw::new_with_offsets(2, 3, 5, 7, 0).0, Dcisw::new::<2, 5>(3, 7, 0).0);
    assert_eq!(Dccsw::new_with_offsets(1, 1, 6, 2, 0).0, Dccsw::new::<1, 6>(1, 2, 0).0);
    assert_eq!(Dccisw::new_with_offsets(3, 5, 5, 4, 0).0, Dccisw::new::<3, 5>(5, 4, 0).0);
}

#[test]
fn address_operands_carry_the_address() {
    assert_eq!(Dcimvac::new(0x1234_5600).0, 0x1234_5600);
    assert_eq!(Dccmvac::new(0x20).0, 0x20);
    assert_eq!(Dccmvau::new(0x40).0, 0x40);
    assert_eq!(Dccimvac::new(0x60).0, 0x60);
}

#[test]
fn line_ops_issue_one_write_each() {
    let mut bank = SysRegBank::new();
    invalidate_data_cache_line_to_poc(&mut bank, 0x100);
    clean_data_cache_line_to_poc(&mut bank, 0x200);
    aarch32_rt::cache::clean_and_invalidate_data_cache_line_to_poc(&mut bank, 0x300);
    assert_eq!(bank.entries.len(), 3);
    assert_eq!(bank.entries[0], (Dcimvac::reg_id().key(), 0x100));
    assert_eq!(bank.entries[1], (Dccmvac::reg_id().key(), 0x200));
    assert_eq!(bank.entries[2], (Dccimvac::reg_id().key(), 0x300));
}

#[test]
fn full_sweep_issues_one_op_per_set_and_way() {
    // 2-way (log2 = 1), 32-byte lines, 4 sets (log2 = 2): 8 operations
    let mut bank = SysRegBank::new();
    invalidate_l1_data_cache::<1, 5, 2>(&mut bank);
    assert_eq!(bank.entries.len(), 8);
    let key = Dcisw::reg_id().key();
    for set in 0..4u32 {
        for way in 0..2u32 {
            let i = (set * 2 + way) as usize;
            assert_eq!(bank.entries[i], (key, (way << 31) | (set << 5)));
        }
    }
}

#[test]
fn clean_sweeps_target_their_registers() {
    let mut bank = SysRegBank::new();
    clean_l1_data_cache::<0, 5, 1>(&mut bank);
    assert_eq!(bank.entries.len(), 2);
    assert_eq!(bank.entries[0], (Dccsw::reg_id().key(), 0));
    assert_eq!(bank.entries[1], (Dccsw::reg_id().key(), 1 << 5));

    let mut bank2 = SysRegBank::new();
    clean_and_invalidate_l1_data_cache::<0, 5, 1>(&mut bank2);
    assert_eq!(bank2.entries[0], (Dccisw::reg_id().key(), 0));
    assert_eq!(bank2.entries[1], (Dccisw::reg_id().key(), 1 << 5));
}
