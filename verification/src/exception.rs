//! Exception classes, return-address adjustment, supervisor-call immediate
//! extraction, and handler resolution.
//!
//! On exception entry the hardware banks the preferred return address into
//! the exception mode's link register. For most classes that address is not
//! the faulting instruction: each class carries an architecturally defined
//! offset that the trampoline must subtract before handing the address to a
//! handler. A supervisor call instead carries an immediate operand inside
//! the triggering instruction, in a 16-bit Thumb form or a 24-bit Arm form.

use vstd::prelude::*;

verus! {

use crate::cpsr::Cpsr;

/// Offset subtracted from the banked return address for an Undefined
/// Instruction taken from Arm state.
pub const UNDEFINED_OFFSET_ARM: u32 = 4;

/// Offset subtracted from the banked return address for an Undefined
/// Instruction taken from Thumb state.
pub const UNDEFINED_OFFSET_THUMB: u32 = 2;

/// Offset subtracted from the banked return address for a Prefetch Abort.
pub const PREFETCH_ABORT_OFFSET: u32 = 4;

/// Offset subtracted from the banked return address for a Data Abort.
pub const DATA_ABORT_OFFSET: u32 = 8;

/// Offset subtracted from the banked return address for an IRQ.
pub const IRQ_OFFSET: u32 = 4;

/// Mask keeping the 8-bit immediate of a Thumb `svc` instruction.
pub const SVC_IMMEDIATE_MASK_THUMB: u32 = 0x0000_00FF;

/// Mask keeping the 24-bit immediate of an Arm `svc` instruction.
pub const SVC_IMMEDIATE_MASK_ARM: u32 = 0x00FF_FFFF;

/// One of the seven AArch32 exception classes, in vector-table order.
#[derive(Clone, Copy, Debug, PartialEq, Eq, Structural)]
pub enum ExceptionClass {
    /// Reset: the processor starts (or restarts) here.
    Reset,
    /// Undefined Instruction.
    Undefined,
    /// Supervisor Call (software interrupt).
    SupervisorCall,
    /// Prefetch Abort: instruction fetch faulted.
    PrefetchAbort,
    /// Data Abort: data access faulted.
    DataAbort,
    /// Normal interrupt request.
    Irq,
    /// Fast interrupt request.
    Fiq,
}

/// The architecturally defined amount by which the banked return address
/// exceeds the address a handler should see, for exceptions taken with the
/// given prior instruction-set state.
pub open spec fn spec_return_address_offset(class: ExceptionClass, thumb: bool) -> u32 {
    match class {
        ExceptionClass::Reset => 0,
        ExceptionClass::Undefined => if thumb {
            UNDEFINED_OFFSET_THUMB
        } else {
            UNDEFINED_OFFSET_ARM
        },
        ExceptionClass::SupervisorCall => 0,
        ExceptionClass::PrefetchAbort => PREFETCH_ABORT_OFFSET,
        ExceptionClass::DataAbort => DATA_ABORT_OFFSET,
        ExceptionClass::Irq => IRQ_OFFSET,
        ExceptionClass::Fiq => IRQ_OFFSET,
    }
}

/// The amount subtracted from the banked return address before dispatch.
pub fn return_address_offset(class: ExceptionClass, thumb: bool) -> (r: u32)
    ensures
        r == spec_return_address_offset(class, thumb),
{
    match class {
        ExceptionClass::Reset => 0,
        ExceptionClass::Undefined => if thumb {
            UNDEFINED_OFFSET_THUMB
        } else {
            UNDEFINED_OFFSET_ARM
        },
        ExceptionClass::SupervisorCall => 0,
        ExceptionClass::PrefetchAbort => PREFETCH_ABORT_OFFSET,
        ExceptionClass::DataAbort => DATA_ABORT_OFFSET,
        ExceptionClass::Irq => IRQ_OFFSET,
        ExceptionClass::Fiq => IRQ_OFFSET,
    }
}

/// The address a trampoline passes to its handler: the hardware-reported
/// return address minus the class's offset.
pub open spec fn spec_handler_address(class: ExceptionClass, hw_lr: u32, thumb: bool) -> u32 {
    (hw_lr - spec_return_address_offset(class, thumb)) as u32
}

/// Adjust the hardware-reported return address for dispatch to a handler.
///
/// The result is exactly the reported address minus the class's
/// architecturally defined offset.
pub fn handler_address(class: ExceptionClass, hw_lr: u32, thumb: bool) -> (r: u32)
    requires
        hw_lr >= spec_return_address_offset(class, thumb),
    ensures
        r == spec_handler_address(class, hw_lr, thumb),
        r == hw_lr - spec_return_address_offset(class, thumb),
{
    hw_lr - return_address_offset(class, thumb)
}

/// The handler argument for each class equals the hardware-reported return
/// address minus the architecturally defined offset: 2 or 4 for Undefined
/// (Thumb or Arm state), 4 for Prefetch Abort, 8 for Data Abort, 4 for IRQ,
/// and 0 for a Supervisor Call.
pub proof fn lemma_return_address_adjustment(hw_lr: u32, thumb: bool)
    requires
        hw_lr >= 8,
    ensures
        spec_handler_address(ExceptionClass::Undefined, hw_lr, true) == hw_lr - 2,
        spec_handler_address(ExceptionClass::Undefined, hw_lr, false) == hw_lr - 4,
        spec_handler_address(ExceptionClass::PrefetchAbort, hw_lr, thumb) == hw_lr - 4,
        spec_handler_address(ExceptionClass::DataAbort, hw_lr, thumb) == hw_lr - 8,
        spec_handler_address(ExceptionClass::Irq, hw_lr, thumb) == hw_lr - 4,
        spec_handler_address(ExceptionClass::SupervisorCall, hw_lr, thumb) == hw_lr,
{
}

/// The immediate operand encoded in a supervisor-call instruction: the low
/// 8 bits of the 16-bit Thumb form, or the low 24 bits of the Arm form.
pub open spec fn spec_svc_immediate(thumb: bool, instr: u32) -> u32 {
    if thumb {
        instr & SVC_IMMEDIATE_MASK_THUMB
    } else {
        instr & SVC_IMMEDIATE_MASK_ARM
    }
}

/// Extract the immediate operand from a fetched supervisor-call
/// instruction: `instr` is the 16-bit halfword at (return address - 2) when
/// the call was made from Thumb state, or the 32-bit word at (return
/// address - 4) when it was made from Arm state. Only the opcode bits are
/// masked off; the immediate is neither shifted nor sign-extended.
pub fn svc_immediate(thumb: bool, instr: u32) -> (imm: u32)
    ensures
        imm == spec_svc_immediate(thumb, instr),
        thumb ==> imm <= 0xFF,
        !thumb ==> imm <= 0xFF_FFFF,
{
    proof {
        assert(instr & 0x0000_00FFu32 <= 0xFFu32) by (bit_vector);
        assert(instr & 0x00FF_FFFFu32 <= 0xFF_FFFFu32) by (bit_vector);
    }
    if thumb {
        instr & SVC_IMMEDIATE_MASK_THUMB
    } else {
        instr & SVC_IMMEDIATE_MASK_ARM
    }
}

/// The extracted immediate equals the literal operand the `svc` instruction
/// was assembled with, for both encodings: a Thumb `svc #n` assembles to
/// `0xDF00 | n` (n below 256) and an Arm `svc #n` to `0xEF00_0000 | n`
/// (n below 2^24).
pub proof fn lemma_svc_immediate_exact(n: u32)
    ensures
        n <= 0xFF ==> spec_svc_immediate(true, 0xDF00u32 | n) == n,
        n <= 0xFF_FFFF ==> spec_svc_immediate(false, 0xEF00_0000u32 | n) == n,
{
    assert(n <= 0xFFu32 ==> (0xDF00u32 | n) & 0x0000_00FFu32 == n) by (bit_vector);
    assert(n <= 0xFF_FFFFu32 ==> (0xEF00_0000u32 | n) & 0x00FF_FFFFu32 == n) by (bit_vector);
}

/// Where the trampoline fetches the supervisor-call instruction from: two
/// bytes back from the banked return address in Thumb state, four in Arm
/// state.
pub fn svc_instruction_address(hw_lr: u32, thumb: bool) -> (r: u32)
    requires
        hw_lr >= 4,
    ensures
        thumb ==> r == hw_lr - 2,
        !thumb ==> r == hw_lr - 4,
{
    if thumb {
        hw_lr - 2
    } else {
        hw_lr - 4
    }
}

/// The immediate handed to the supervisor-call handler, computed from the
/// saved status word of the interrupted code and the fetched instruction.
pub fn svc_handler_argument(spsr: Cpsr, instr: u32) -> (imm: u32)
    ensures
        imm == spec_svc_immediate(spsr.spec_t(), instr),
{
    svc_immediate(spsr.t(), instr)
}

/// A handler slot: the link-time association between one exception class
/// and the address dispatched to, with a library default that an
/// application-supplied override replaces.
#[derive(Clone, Copy, Debug, PartialEq, Eq, Structural)]
pub struct HandlerSlot {
    /// The address of the library's default handler for this class.
    pub default_address: u32,
    /// The address of an application-supplied override, if one is linked.
    pub override_address: Option<u32>,
}

impl HandlerSlot {
    /// The address this slot dispatches to: the override when one is
    /// linked, the default otherwise.
    pub open spec fn spec_resolved(self) -> u32 {
        match self.override_address {
            Some(a) => a,
            None => self.default_address,
        }
    }

    /// Resolve the slot to the address dispatched to.
    pub fn resolved(self) -> (r: u32)
        ensures
            r == self.spec_resolved(),
            self.override_address is Some ==> r == self.override_address->0,
            self.override_address is None ==> r == self.default_address,
    {
        match self.override_address {
            Some(a) => a,
            None => self.default_address,
        }
    }
}

/// One step of the default handler: a branch back to itself, so the
/// program counter never moves past it. An exception class with no
/// override linked therefore hangs at this one address.
pub fn default_handler_step(pc: u32) -> (r: u32)
    ensures
        r == pc,
{
    pc
}

/// Running any number of default-handler steps leaves the program counter
/// where it started: the unhandled-exception policy is a hang, not a
/// return.
pub open spec fn spec_default_handler_steps(pc: u32, n: nat) -> u32
    decreases n,
{
    if n == 0 {
        pc
    } else {
        spec_default_handler_steps(pc, (n - 1) as nat)
    }
}

/// However many steps the default handler runs, the program counter stays
/// fixed at the handler's address.
pub proof fn lemma_default_handler_hangs(pc: u32, n: nat)
    ensures
        spec_default_handler_steps(pc, n) == pc,
    decreases n,
{
    if n > 0 {
        lemma_default_handler_hangs(pc, (n - 1) as nat);
    }
}

/// The number of slots in the vector table: one per exception class plus
/// one reserved slot.
pub const VECTOR_SLOT_COUNT: usize = 8;

/// The vector-table slot each exception class vectors through. Slot five
/// is reserved and belongs to no class. The order and slot width are fixed
/// by the hardware and must never change.
pub open spec fn spec_slot_index(class: ExceptionClass) -> int {
    match class {
        ExceptionClass::Reset => 0,
        ExceptionClass::Undefined => 1,
        ExceptionClass::SupervisorCall => 2,
        ExceptionClass::PrefetchAbort => 3,
        ExceptionClass::DataAbort => 4,
        ExceptionClass::Irq => 6,
        ExceptionClass::Fiq => 7,
    }
}

/// The vector-table slot each exception class vectors through.
pub fn slot_index(class: ExceptionClass) -> (r: usize)
    ensures
        r == spec_slot_index(class),
        r < VECTOR_SLOT_COUNT,
        r != 5,
{
    match class {
        ExceptionClass::Reset => 0,
        ExceptionClass::Undefined => 1,
        ExceptionClass::SupervisorCall => 2,
        ExceptionClass::PrefetchAbort => 3,
        ExceptionClass::DataAbort => 4,
        ExceptionClass::Irq => 6,
        ExceptionClass::Fiq => 7,
    }
}

/// Distinct exception classes vector through distinct slots.
pub proof fn lemma_slot_index_injective(c1: ExceptionClass, c2: ExceptionClass)
    requires
        spec_slot_index(c1) == spec_slot_index(c2),
    ensures
        c1 == c2,
{
}

/// The vector table: the branch target of each of the eight slots, in the
/// fixed hardware order Reset, Undefined, Supervisor Call, Prefetch Abort,
/// Data Abort, reserved, IRQ, FIQ. Immutable after link time.
pub struct VectorTable {
    /// The branch target of each slot; the reserved slot holds zero.
    pub slots: Vec<u32>,
}

impl VectorTable {
    /// Eight slots, with nothing in the reserved one.
    pub open spec fn wf(self) -> bool {
        &&& self.slots@.len() == VECTOR_SLOT_COUNT
        &&& self.slots@[5] == 0u32
    }

    /// Lay out a vector table from the trampoline address of each class,
    /// in the fixed hardware order.
    pub fn new(
        reset: u32,
        undefined: u32,
        supervisor_call: u32,
        prefetch_abort: u32,
        data_abort: u32,
        irq: u32,
        fiq: u32,
    ) -> (r: VectorTable)
        ensures
            r.wf(),
            r.slots@ == seq![reset, undefined, supervisor_call, prefetch_abort, data_abort, 0u32, irq, fiq],
            r.slots@[spec_slot_index(ExceptionClass::Reset)] == reset,
            r.slots@[spec_slot_index(ExceptionClass::Undefined)] == undefined,
            r.slots@[spec_slot_index(ExceptionClass::SupervisorCall)] == supervisor_call,
            r.slots@[spec_slot_index(ExceptionClass::PrefetchAbort)] == prefetch_abort,
            r.slots@[spec_slot_index(ExceptionClass::DataAbort)] == data_abort,
            r.slots@[spec_slot_index(ExceptionClass::Irq)] == irq,
            r.slots@[spec_slot_index(ExceptionClass::Fiq)] == fiq,
    {
        let mut slots: Vec<u32> = Vec::new();
        slots.push(reset);
        slots.push(undefined);
        slots.push(supervisor_call);
        slots.push(prefetch_abort);
        slots.push(data_abort);
        slots.push(0);
        slots.push(irq);
        slots.push(fiq);
        proof {
            assert(slots@ =~= seq![
                reset,
                undefined,
                supervisor_call,
                prefetch_abort,
                data_abort,
                0u32,
                irq,
                fiq,
            ]);
        }
        VectorTable { slots }
    }

    /// The branch target an exception class vectors to.
    pub fn target(&self, class: ExceptionClass) -> (r: u32)
        requires
            self.wf(),
        ensures
            r == self.slots@[spec_slot_index(class)],
    {
        let i = slot_index(class);
        self.slots[i]
    }
}

} // verus!
