//! Interrupt masking and the scoped critical section.
//!
//! Masking is the only mutual-exclusion mechanism at this layer: a
//! critical section disables the interrupt source, runs, and then puts the
//! mask bit back to exactly its value before the section, whatever the
//! wrapped code did to it. On hardware each transition is bracketed by
//! compiler fences (and a barrier on enable) so no memory access is
//! reordered across the masking boundary; the fences order accesses and
//! change no architectural state, so the state transition itself is what
//! is stated here.

use vstd::prelude::*;

verus! {

use crate::cpsr::Cpsr;

/// The mask keeping the low 24 bits of the multiprocessor affinity
/// register: the core identity.
pub const CORE_ID_MASK: u32 = 0x00FF_FFFF;

/// The status word with IRQ masked (disabled); every other bit unchanged.
pub open spec fn spec_irq_disable(c: Cpsr) -> Cpsr {
    c.spec_with_i(true)
}

/// The status word with IRQ unmasked (enabled); every other bit unchanged.
pub open spec fn spec_irq_enable(c: Cpsr) -> Cpsr {
    c.spec_with_i(false)
}

/// Mask IRQ: set the IRQ mask bit and change nothing else. Does not mask
/// FIQ, and has no effect from User mode on hardware.
pub fn irq_disable(c: Cpsr) -> (r: Cpsr)
    ensures
        r == spec_irq_disable(c),
        r.spec_i(),
        r.spec_mode_bits() == c.spec_mode_bits(),
        r.spec_t() == c.spec_t(),
        r.spec_f() == c.spec_f(),
{
    c.with_i(true)
}

/// Unmask IRQ: clear the IRQ mask bit and change nothing else. Must not be
/// called inside a masking-based critical section; does not unmask FIQ.
pub fn irq_enable(c: Cpsr) -> (r: Cpsr)
    ensures
        r == spec_irq_enable(c),
        !r.spec_i(),
        r.spec_mode_bits() == c.spec_mode_bits(),
        r.spec_t() == c.spec_t(),
        r.spec_f() == c.spec_f(),
{
    c.with_i(false)
}

/// Open a scoped critical section: record whether IRQ was masked, then
/// mask it. The recorded value is what `free_exit` restores.
pub fn free_enter(c: &mut Cpsr) -> (was_masked: bool)
    ensures
        was_masked == old(c).spec_i(),
        *final(c) == spec_irq_disable(*old(c)),
        final(c).spec_i(),
{
    let was_masked = c.i();
    *c = irq_disable(*c);
    was_masked
}

/// Close a scoped critical section: put the IRQ mask bit back to exactly
/// the recorded pre-section value, whatever the wrapped code set it to,
/// and change nothing else.
pub fn free_exit(c: &mut Cpsr, was_masked: bool)
    ensures
        final(c).spec_i() == was_masked,
        final(c).spec_mode_bits() == old(c).spec_mode_bits(),
        final(c).spec_t() == old(c).spec_t(),
        final(c).spec_f() == old(c).spec_f(),
        *final(c) == old(c).spec_with_i(was_masked),
{
    if was_masked {
        *c = irq_disable(*c);
    } else {
        *c = irq_enable(*c);
    }
}

/// A scoped critical section restores the IRQ mask bit to exactly its
/// pre-section value, regardless of what the wrapped code set it to:
/// `pre` is the status word before the section, `mid` the status word the
/// wrapped code left behind, and the exit's result carries `pre`'s mask
/// bit with `mid`'s every other bit.
pub proof fn lemma_free_restores_mask(pre: Cpsr, mid: Cpsr)
    ensures
        mid.spec_with_i(pre.spec_i()).spec_i() == pre.spec_i(),
        mid.spec_with_i(pre.spec_i()).spec_mode_bits() == mid.spec_mode_bits(),
        mid.spec_with_i(pre.spec_i()).spec_t() == mid.spec_t(),
        mid.spec_with_i(pre.spec_i()).spec_f() == mid.spec_f(),
{
    lemma_with_i_effect(mid.raw);
}

/// Setting or clearing the IRQ mask bit changes only that bit.
proof fn lemma_with_i_effect(raw: u32)
    by (bit_vector)
    ensures
        (raw | 0x80u32) & 0x80u32 != 0,
        (raw & !0x80u32) & 0x80u32 == 0,
        (raw | 0x80u32) & 0x1Fu32 == raw & 0x1Fu32,
        (raw & !0x80u32) & 0x1Fu32 == raw & 0x1Fu32,
        (raw | 0x80u32) & 0x20u32 == raw & 0x20u32,
        (raw & !0x80u32) & 0x20u32 == raw & 0x20u32,
        (raw | 0x80u32) & 0x40u32 == raw & 0x40u32,
        (raw & !0x80u32) & 0x40u32 == raw & 0x40u32,
{
}

/// The core identity: the low 24 bits of the multiprocessor affinity
/// register's reported value.
pub fn core_id(mpidr: u32) -> (r: u32)
    ensures
        r == mpidr & CORE_ID_MASK,
        r <= CORE_ID_MASK,
{
    proof {
        assert(mpidr & 0x00FF_FFFFu32 <= 0x00FF_FFFFu32) by (bit_vector);
    }
    mpidr & CORE_ID_MASK
}

} // verus!
