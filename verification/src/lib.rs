//! Run-time support logic for AArch32 processors.
//!
//! This crate models the processor-facing logic of a minimal AArch32
//! run-time: the status-register encodings, exception-trampoline
//! bookkeeping (return-address adjustment, supervisor-call immediate
//! extraction, context save/restore), startup sequencing (per-mode stack
//! partitioning, static-data initialisation), scoped interrupt masking,
//! system-register access, cache-maintenance operand encoding, MMU section
//! descriptors, and target-string classification.
//!
//! Hardware state that a bare-metal build would touch through single
//! instructions (banked registers, the system-register file, the stacks)
//! is represented here as explicit values, so that every transformation
//! the run-time performs on that state is stated in a contract and proved.

pub mod cache;
pub mod context;
pub mod cpsr;
pub mod exception;
pub mod irqmask;
pub mod mmu;
pub mod registers;
pub mod startup;
pub mod sysreg;
pub mod target;

pub use cpsr::Cpsr;
pub use cpsr::ProcessorMode;
