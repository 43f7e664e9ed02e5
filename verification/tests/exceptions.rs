use aarch32_rt::cpsr::Cpsr;
use aarch32_rt::exception::handler_address;
use aarch32_rt::exception::default_handler_step;
use aarch32_rt::exception::return_address_offset;
use aarch32_rt::exception::svc_handler_argument;
use aarch32_rt::exception::svc_immediate;
use aarch32_rt::exception::svc_instruction_address;
use aarch32_rt::exception::slot_index;
use aarch32_rt::exception::ExceptionClass;
use aarch32_rt::exception::HandlerSlot;
use aarch32_rt::exception::VectorTable;

#[test]
fn return_address_offsets_match_architecture() {
    assert_eq!(return_address_offset(ExceptionClass::Undefined, true), 2);
    assert_eq!(return_address_offset(ExceptionClass::Undefined, false), 4);
    assert_eq!(return_address_offset(ExceptionClass::PrefetchAbort, false), 4);
    assert_eq!(return_address_offset(ExceptionClass::PrefetchAbort, true), 4);
    assert_eq!(return_address_offset(ExceptionClass::DataAbort, false), 8);
    assert_eq!(return_address_offset(ExceptionClass::DataAbort, true), 8);
    assert_eq!(return_address_offset(ExceptionClass::Irq, false), 4);
    assert_eq!(return_address_offset(ExceptionClass::SupervisorCall, false), 0);
    assert_eq!(return_address_offset(ExceptionClass::SupervisorCall, true), 0);
}

#[test]
fn handler_address_subtracts_the_offset() {
    assert_eq!(handler_address(ExceptionClass::Undefined, 0x8004, true), 0x8002);
    assert_eq!(handler_address(ExceptionClass::Undefined, 0x8004, false), 0x8000);
    assert_eq!(handler_address(ExceptionClass::PrefetchAbort, 0x8004, false), 0x8000);
    assert_eq!(handler_address(ExceptionClass::DataAbort, 0x8010, false), 0x8008);
    assert_eq!(handler_address(ExceptionClass::Irq, 0x8004, false), 0x8000);
    assert_eq!(handler_address(ExceptionClass::SupervisorCall, 0x8004, false), 0x8004);
}

#[test]
fn svc_immediate_thumb_extracts_low_byte() {
    // Thumb `svc #0x12` assembles to 0xDF12
    assert_eq!(svc_immediate(true, 0xDF12), 0x12);
    assert_eq!(svc_immediate(true, 0xDFFF), 0xFF);
    assert_eq!(svc_immediate(true, 0xDF00), 0x00);
}

#[test]
fn svc_immediate_arm_extracts_low_24_bits() {
    // Arm `svc #0x123456` assembles to 0xEF123456
    assert_eq!(svc_immediate(false, 0xEF12_3456), 0x12_3456);
    assert_eq!(svc_immediate(false, 0xEFFF_FFFF), 0xFF_FFFF);
    assert_eq!(svc_immediate(false, 0xEF00_0000), 0);
}

#[test]
fn svc_immediate_from_thumb_is_exact_not_shifted() {
    // An SVC with immediate 0x12 from Thumb state must deliver exactly
    // 0x12: not 0x1200 and not a sign-extended variant.
    let spsr_thumb = Cpsr::new_with_raw_value(0x20);
    let got = svc_handler_argument(spsr_thumb, 0xDF12);
    assert_eq!(got, 0x12);
    assert_ne!(got, 0x1200);
    assert_ne!(got, 0xFFFF_FF12);
}

#[test]
fn svc_fetch_address_depends_on_state() {
    assert_eq!(svc_instruction_address(0x8004, true), 0x8002);
    assert_eq!(svc_instruction_address(0x8004, false), 0x8000);
}

#[test]
fn handler_slot_resolves_override_before_default() {
    let defaulted = HandlerSlot { default_address: 0x9000, override_address: None };
    assert_eq!(defaulted.resolved(), 0x9000);
    let overridden = HandlerSlot { default_address: 0x9000, override_address: Some(0x4000) };
    assert_eq!(overridden.resolved(), 0x4000);
}

#[test]
fn vector_table_keeps_the_hardware_order() {
    assert_eq!(slot_index(ExceptionClass::Reset), 0);
    assert_eq!(slot_index(ExceptionClass::Undefined), 1);
    assert_eq!(slot_index(ExceptionClass::SupervisorCall), 2);
    assert_eq!(slot_index(ExceptionClass::PrefetchAbort), 3);
    assert_eq!(slot_index(ExceptionClass::DataAbort), 4);
    assert_eq!(slot_index(ExceptionClass::Irq), 6);
    assert_eq!(slot_index(ExceptionClass::Fiq), 7);

    let table = VectorTable::new(0x100, 0x200, 0x300, 0x400, 0x500, 0x600, 0x700);
    assert_eq!(table.slots, vec![0x100, 0x200, 0x300, 0x400, 0x500, 0, 0x600, 0x700]);
    assert_eq!(table.target(ExceptionClass::Reset), 0x100);
    assert_eq!(table.target(ExceptionClass::Irq), 0x600);
    assert_eq!(table.target(ExceptionClass::Fiq), 0x700);
}

#[test]
fn unhandled_exception_hangs_at_default_handler() {
    // With no override linked, the slot resolves to the default handler,
    // and its spin leaves the program counter fixed at that address.
    let slot = HandlerSlot { default_address: 0x9000, override_address: None };
    let mut pc = slot.resolved();
    for _ in 0..16 {
        pc = default_handler_step(pc);
        assert_eq!(pc, 0x9000);
    }
}
