//! The one-time startup sequence: per-mode stack partitioning,
//! static-data initialisation, the control-register adjustments boot makes,
//! and the hypervisor-to-system descent taken by cores that boot at the
//! elevated privilege level.
//!
//! Each step here is a pure transformation of explicit state: the single
//! top-of-RAM address is partitioned downward into one region per
//! secondary mode, the zero-initialised and copied data regions are
//! written, and the status word handed to the application entry selects
//! System mode with both interrupt sources masked.

use vstd::prelude::*;

verus! {

use crate::cpsr::Cpsr;
use crate::cpsr::ProcessorMode;

/// The Thumb-exception-entry control bit of the system control register
/// (bit 30): clear means vectors run as Arm (A32) code.
pub const SCTLR_TE_BIT: u32 = 0x4000_0000;

/// The per-mode stack sizes the integrating application supplies, each a
/// multiple of eight bytes. A build without a hypervisor level supplies
/// zero for `hyp`.
#[derive(Clone, Copy, Debug, PartialEq, Eq, Structural)]
pub struct StackSizes {
    pub hyp: u32,
    pub und: u32,
    pub svc: u32,
    pub abt: u32,
    pub irq: u32,
    pub fiq: u32,
}

impl StackSizes {
    /// Every size is a multiple of eight bytes.
    pub open spec fn wf(self) -> bool {
        &&& self.hyp % 8 == 0
        &&& self.und % 8 == 0
        &&& self.svc % 8 == 0
        &&& self.abt % 8 == 0
        &&& self.irq % 8 == 0
        &&& self.fiq % 8 == 0
    }

    /// The bytes the reserved (non-System) regions take together.
    pub open spec fn spec_total(self) -> int {
        self.hyp + self.und + self.svc + self.abt + self.irq + self.fiq
    }
}

/// The initial stack-pointer value assigned to each processor mode. Each
/// mode's region runs downward from its pointer; the System-mode stack
/// takes everything below its pointer.
#[derive(Clone, Copy, Debug, PartialEq, Eq, Structural)]
pub struct ModeStacks {
    pub hyp_sp: u32,
    pub und_sp: u32,
    pub svc_sp: u32,
    pub abt_sp: u32,
    pub irq_sp: u32,
    pub fiq_sp: u32,
    pub sys_sp: u32,
}

/// The stack assignment the startup step computes from a top-of-RAM
/// address: one fixed-size region per secondary mode, carved downward in
/// the fixed order Hyp, Undefined, Supervisor, Abort, IRQ, FIQ, with the
/// remainder going to System mode.
pub open spec fn spec_partition(top: u32, sizes: StackSizes) -> ModeStacks {
    ModeStacks {
        hyp_sp: top,
        und_sp: (top - sizes.hyp) as u32,
        svc_sp: (top - sizes.hyp - sizes.und) as u32,
        abt_sp: (top - sizes.hyp - sizes.und - sizes.svc) as u32,
        irq_sp: (top - sizes.hyp - sizes.und - sizes.svc - sizes.abt) as u32,
        fiq_sp: (top - sizes.hyp - sizes.und - sizes.svc - sizes.abt - sizes.irq) as u32,
        sys_sp: (top - sizes.hyp - sizes.und - sizes.svc - sizes.abt - sizes.irq
            - sizes.fiq) as u32,
    }
}

/// Partition a single top-of-RAM address downward into the per-mode stack
/// pointers. Each mode's pointer stands where the previous region ends;
/// System mode receives all remaining space below the reserved regions.
pub fn partition_stacks(top: u32, sizes: &StackSizes) -> (a: ModeStacks)
    requires
        sizes.spec_total() <= top,
    ensures
        a == spec_partition(top, *sizes),
        a.hyp_sp == top,
        a.und_sp == a.hyp_sp - sizes.hyp,
        a.svc_sp == a.und_sp - sizes.und,
        a.abt_sp == a.svc_sp - sizes.svc,
        a.irq_sp == a.abt_sp - sizes.abt,
        a.fiq_sp == a.irq_sp - sizes.irq,
        a.sys_sp == a.fiq_sp - sizes.fiq,
{
    let hyp_sp = top;
    let und_sp = hyp_sp - sizes.hyp;
    let svc_sp = und_sp - sizes.und;
    let abt_sp = svc_sp - sizes.svc;
    let irq_sp = abt_sp - sizes.abt;
    let fiq_sp = irq_sp - sizes.irq;
    let sys_sp = fiq_sp - sizes.fiq;
    ModeStacks { hyp_sp, und_sp, svc_sp, abt_sp, irq_sp, fiq_sp, sys_sp }
}

/// The stack-partition step is deterministic: two runs from the same
/// top-of-RAM address with the same size constants assign identical stack
/// pointers to every mode.
pub proof fn lemma_partition_idempotent(top: u32, sizes: StackSizes, a1: ModeStacks, a2: ModeStacks)
    requires
        a1 == spec_partition(top, sizes),
        a2 == spec_partition(top, sizes),
    ensures
        a1 == a2,
{
}

/// Aligned inputs give aligned assignments: with an eight-byte-aligned top
/// and well-formed sizes, every mode's stack pointer is eight-byte
/// aligned.
pub proof fn lemma_partition_aligned(top: u32, sizes: StackSizes)
    requires
        top % 8 == 0,
        sizes.wf(),
        sizes.spec_total() <= top,
    ensures
        spec_partition(top, sizes).hyp_sp % 8 == 0,
        spec_partition(top, sizes).und_sp % 8 == 0,
        spec_partition(top, sizes).svc_sp % 8 == 0,
        spec_partition(top, sizes).abt_sp % 8 == 0,
        spec_partition(top, sizes).irq_sp % 8 == 0,
        spec_partition(top, sizes).fiq_sp % 8 == 0,
        spec_partition(top, sizes).sys_sp % 8 == 0,
{
}

/// One half-open address range `[lo, hi)`, as mathematical integers.
pub open spec fn spec_ranges_disjoint(lo1: int, hi1: int, lo2: int, hi2: int) -> bool {
    hi1 <= lo2 || hi2 <= lo1
}

/// The partitioned stack regions never overlap: each reserved mode's
/// region `[sp - size, sp)` is disjoint from every other's, and the
/// System-mode region (everything below `sys_sp`) is disjoint from all of
/// them.
pub proof fn lemma_partition_disjoint(top: u32, sizes: StackSizes)
    requires
        sizes.spec_total() <= top,
    ensures
        ({
            let a = spec_partition(top, sizes);
            &&& spec_ranges_disjoint(
                a.hyp_sp - sizes.hyp,
                a.hyp_sp as int,
                a.und_sp - sizes.und,
                a.und_sp as int,
            )
            &&& spec_ranges_disjoint(
                a.und_sp - sizes.und,
                a.und_sp as int,
                a.svc_sp - sizes.svc,
                a.svc_sp as int,
            )
            &&& spec_ranges_disjoint(
                a.svc_sp - sizes.svc,
                a.svc_sp as int,
                a.abt_sp - sizes.abt,
                a.abt_sp as int,
            )
            &&& spec_ranges_disjoint(
                a.abt_sp - sizes.abt,
                a.abt_sp as int,
                a.irq_sp - sizes.irq,
                a.irq_sp as int,
            )
            &&& spec_ranges_disjoint(
                a.irq_sp - sizes.irq,
                a.irq_sp as int,
                a.fiq_sp - sizes.fiq,
                a.fiq_sp as int,
            )
            &&& forall|m1: int, m2: int|
                0 <= m1 < m2 < 6 ==> spec_ranges_disjoint(
                    spec_region_lo(top, sizes, m1),
                    spec_region_hi(top, sizes, m1),
                    spec_region_lo(top, sizes, m2),
                    spec_region_hi(top, sizes, m2),
                )
            &&& forall|m: int|
                0 <= m < 6 ==> spec_ranges_disjoint(
                    0,
                    spec_partition(top, sizes).sys_sp as int,
                    spec_region_lo(top, sizes, m),
                    spec_region_hi(top, sizes, m),
                )
        }),
{
    assert forall|m1: int, m2: int| 0 <= m1 < m2 < 6 implies spec_ranges_disjoint(
        spec_region_lo(top, sizes, m1),
        spec_region_hi(top, sizes, m1),
        spec_region_lo(top, sizes, m2),
        spec_region_hi(top, sizes, m2),
    ) by {
        lemma_region_order(top, sizes, m1, m2);
    }
    assert forall|m: int| 0 <= m < 6 implies spec_ranges_disjoint(
        0,
        spec_partition(top, sizes).sys_sp as int,
        spec_region_lo(top, sizes, m),
        spec_region_hi(top, sizes, m),
    ) by {
        lemma_region_above_sys(top, sizes, m);
    }
}

/// The upper bound of reserved region `m` (0 = Hyp at the top, 5 = FIQ at
/// the bottom of the reserved block).
pub open spec fn spec_region_hi(top: u32, sizes: StackSizes, m: int) -> int {
    let a = spec_partition(top, sizes);
    if m == 0 {
        a.hyp_sp as int
    } else if m == 1 {
        a.und_sp as int
    } else if m == 2 {
        a.svc_sp as int
    } else if m == 3 {
        a.abt_sp as int
    } else if m == 4 {
        a.irq_sp as int
    } else {
        a.fiq_sp as int
    }
}

/// The lower bound of reserved region `m`.
pub open spec fn spec_region_lo(top: u32, sizes: StackSizes, m: int) -> int {
    let a = spec_partition(top, sizes);
    if m == 0 {
        a.hyp_sp - sizes.hyp
    } else if m == 1 {
        a.und_sp - sizes.und
    } else if m == 2 {
        a.svc_sp - sizes.svc
    } else if m == 3 {
        a.abt_sp - sizes.abt
    } else if m == 4 {
        a.irq_sp - sizes.irq
    } else {
        a.fiq_sp - sizes.fiq
    }
}

/// The reserved regions are stacked strictly downward: a lower-numbered
/// region lies entirely at or above a higher-numbered one.
proof fn lemma_region_order(top: u32, sizes: StackSizes, m1: int, m2: int)
    requires
        sizes.spec_total() <= top,
        0 <= m1 < m2 < 6,
    ensures
        spec_region_lo(top, sizes, m1) >= spec_region_hi(top, sizes, m2),
{
}

/// Every reserved region lies at or above the System-mode stack pointer.
proof fn lemma_region_above_sys(top: u32, sizes: StackSizes, m: int)
    requires
        sizes.spec_total() <= top,
        0 <= m < 6,
    ensures
        spec_region_lo(top, sizes, m) >= spec_partition(top, sizes).sys_sp as int,
{
}

/// Clear the Thumb-exception-entry bit of a system-control-register value,
/// leaving every other bit unchanged, so all vector slots are interpreted
/// as Arm (A32) instructions.
pub fn clear_te(sctlr: u32) -> (r: u32)
    ensures
        r == sctlr & !SCTLR_TE_BIT,
        r & SCTLR_TE_BIT == 0,
        r | (sctlr & SCTLR_TE_BIT) == sctlr,
{
    proof {
        assert((sctlr & !0x4000_0000u32) & 0x4000_0000u32 == 0u32) by (bit_vector);
        assert((sctlr & !0x4000_0000u32) | (sctlr & 0x4000_0000u32) == sctlr) by (bit_vector);
    }
    sctlr & !SCTLR_TE_BIT
}

/// The coprocessor-access bits granting full access to the two
/// floating-point coprocessors (bits 20..=23).
pub const CPACR_FPU_ACCESS_BITS: u32 = 0x00F0_0000;

/// The floating-point exception register's enable bit (bit 30).
pub const FPEXC_ENABLE_BIT: u32 = 0x4000_0000;

/// What enabling the floating-point unit writes: the coprocessor-access
/// register with both floating-point coprocessors granted (every other bit
/// unchanged), and the floating-point exception register holding only the
/// enable bit.
pub fn fpu_enable(cpacr: u32) -> (r: (u32, u32))
    ensures
        r.0 == cpacr | CPACR_FPU_ACCESS_BITS,
        r.0 & CPACR_FPU_ACCESS_BITS == CPACR_FPU_ACCESS_BITS,
        r.0 & !CPACR_FPU_ACCESS_BITS == cpacr & !CPACR_FPU_ACCESS_BITS,
        r.1 == FPEXC_ENABLE_BIT,
{
    proof {
        assert((cpacr | 0x00F0_0000u32) & 0x00F0_0000u32 == 0x00F0_0000u32) by (bit_vector);
        assert((cpacr | 0x00F0_0000u32) & !0x00F0_0000u32 == cpacr & !0x00F0_0000u32)
            by (bit_vector);
    }
    (cpacr | CPACR_FPU_ACCESS_BITS, FPEXC_ENABLE_BIT)
}

/// The contents of `mem` with words `[start, end)` zeroed.
pub open spec fn spec_zeroed(mem: Seq<u32>, start: int, end: int) -> Seq<u32> {
    Seq::new(mem.len(), |i: int| if start <= i < end { 0u32 } else { mem[i] })
}

/// Zero the statically declared zero-initialised region: words `[start,
/// end)` of `mem` become zero and nothing else changes.
pub fn zero_region(mem: &mut Vec<u32>, start: usize, end: usize)
    requires
        start <= end,
        end <= old(mem)@.len(),
    ensures
        final(mem)@ == spec_zeroed(old(mem)@, start as int, end as int),
{
    let mut i: usize = start;
    while i < end
        invariant
            start <= i <= end,
            end <= mem@.len(),
            mem@.len() == old(mem)@.len(),
            forall|j: int| 0 <= j < mem@.len() && !(start <= j < i) ==> mem@[j] == old(mem)@[j],
            forall|j: int| start <= j < i ==> mem@[j] == 0u32,
        decreases end - i,
    {
        mem[i] = 0;
        i = i + 1;
    }
    proof {
        assert(final(mem)@ =~= spec_zeroed(old(mem)@, start as int, end as int));
    }
}

/// The contents of `mem` with `count` words starting at `dst` replaced by
/// the words of `rom` starting at `src`.
pub open spec fn spec_copied(
    mem: Seq<u32>,
    dst: int,
    rom: Seq<u32>,
    src: int,
    count: int,
) -> Seq<u32> {
    Seq::new(
        mem.len(),
        |i: int| if dst <= i < dst + count {
            rom[src + (i - dst)]
        } else {
            mem[i]
        },
    )
}

/// Copy the statically declared initialised-data region from its read-only
/// storage into RAM: words `[dst, dst + count)` of `mem` take the values
/// of words `[src, src + count)` of `rom` and nothing else changes.
pub fn copy_region(mem: &mut Vec<u32>, dst: usize, rom: &Vec<u32>, src: usize, count: usize)
    requires
        dst + count <= old(mem)@.len(),
        src + count <= rom@.len(),
    ensures
        final(mem)@ == spec_copied(old(mem)@, dst as int, rom@, src as int, count as int),
{
    let mem_len = mem.len();
    let rom_len = rom.len();
    let mut i: usize = 0;
    while i < count
        invariant
            i <= count,
            dst + count <= mem@.len(),
            src + count <= rom@.len(),
            mem@.len() == mem_len,
            rom@.len() == rom_len,
            mem@.len() == old(mem)@.len(),
            forall|j: int|
                0 <= j < mem@.len() && !(dst <= j < dst + i) ==> mem@[j] == old(mem)@[j],
            forall|j: int| dst <= j < dst + i ==> mem@[j] == rom@[src + (j - dst)],
        decreases count - i,
    {
        mem[dst + i] = rom[src + i];
        i = i + 1;
    }
    proof {
        assert(final(mem)@ =~= spec_copied(old(mem)@, dst as int, rom@, src as int, count as int));
    }
}

/// Where the statically declared data regions stand, in word indices: the
/// zero-initialised region `[zero_start, zero_end)`, the initialised
/// region `[data_start, data_start + data_count)`, and its read-only
/// source at `rom_start`.
#[derive(Clone, Copy, Debug, PartialEq, Eq, Structural)]
pub struct DataLayout {
    pub zero_start: usize,
    pub zero_end: usize,
    pub data_start: usize,
    pub data_count: usize,
    pub rom_start: usize,
}

impl DataLayout {
    /// The regions fit in a memory of `mem_len` words with a source of
    /// `rom_len` words, and do not overlap each other.
    pub open spec fn wf(self, mem_len: nat, rom_len: nat) -> bool {
        &&& self.zero_start <= self.zero_end <= mem_len
        &&& self.data_start + self.data_count <= mem_len
        &&& self.rom_start + self.data_count <= rom_len
        &&& spec_ranges_disjoint(
            self.zero_start as int,
            self.zero_end as int,
            self.data_start as int,
            self.data_start + self.data_count,
        )
    }
}

/// Initialise the static data segments: zero the zero-initialised region,
/// then copy the initialised region's values from read-only storage.
pub fn init_segments(mem: &mut Vec<u32>, layout: &DataLayout, rom: &Vec<u32>)
    requires
        layout.wf(old(mem)@.len(), rom@.len()),
    ensures
        final(mem)@.len() == old(mem)@.len(),
        // the zero-initialised region reads zero
        forall|j: int|
            layout.zero_start <= j < layout.zero_end ==> final(mem)@[j] == 0u32,
        // the initialised region reads its read-only source values
        forall|j: int|
            layout.data_start <= j < layout.data_start + layout.data_count ==> final(mem)@[j]
                == rom@[layout.rom_start + (j - layout.data_start)],
        // everything else is untouched
        forall|j: int|
            0 <= j < final(mem)@.len() && !(layout.zero_start <= j < layout.zero_end) && !(
            layout.data_start <= j < layout.data_start + layout.data_count) ==> final(mem)@[j]
                == old(mem)@[j],
{
    zero_region(mem, layout.zero_start, layout.zero_end);
    copy_region(mem, layout.data_start, rom, layout.rom_start, layout.data_count);
}

/// All general-purpose registers, r0 to r12 (the startup sequence zeroes
/// every one before transferring to the application).
#[derive(Clone, Copy, Debug, PartialEq, Eq, Structural)]
pub struct GpRegs {
    pub r0: u32,
    pub r1: u32,
    pub r2: u32,
    pub r3: u32,
    pub r4: u32,
    pub r5: u32,
    pub r6: u32,
    pub r7: u32,
    pub r8: u32,
    pub r9: u32,
    pub r10: u32,
    pub r11: u32,
    pub r12: u32,
}

impl GpRegs {
    /// Every register is zero.
    pub open spec fn spec_all_zero(self) -> bool {
        self == GpRegs {
            r0: 0u32,
            r1: 0u32,
            r2: 0u32,
            r3: 0u32,
            r4: 0u32,
            r5: 0u32,
            r6: 0u32,
            r7: 0u32,
            r8: 0u32,
            r9: 0u32,
            r10: 0u32,
            r11: 0u32,
            r12: 0u32,
        }
    }

    /// The all-zero register file handed to the application entry, so no
    /// undefined startup register contents leak into application code.
    pub fn zeroed() -> (r: GpRegs)
        ensures
            r.spec_all_zero(),
    {
        GpRegs {
            r0: 0,
            r1: 0,
            r2: 0,
            r3: 0,
            r4: 0,
            r5: 0,
            r6: 0,
            r7: 0,
            r8: 0,
            r9: 0,
            r10: 0,
            r11: 0,
            r12: 0,
        }
    }
}

/// What the hypervisor-level boot step leaves behind when a core starts at
/// the elevated privilege level.
#[derive(Clone, Copy, Debug, PartialEq, Eq, Structural)]
pub struct HypDescent {
    /// The status word after the exception-return-style descent.
    pub cpsr: Cpsr,
    /// The hypervisor-level vector base address after the step.
    pub hvbar: u32,
    /// The hypervisor configuration register after the step.
    pub hactlr: u32,
    /// Whether the descent ran (the core was at the hypervisor level).
    pub descended: bool,
}

/// The hypervisor-to-system descent: if the core booted at the hypervisor
/// level, install the vector table for that level, set the configuration
/// bits that permit the lower level to control its registers, and perform
/// an exception-return-style jump into System mode with interrupts masked.
/// A core that did not boot at the hypervisor level is left untouched.
pub fn hyp_descent(
    cpsr: Cpsr,
    hvbar: u32,
    hactlr: u32,
    enable_bits: u32,
    vector_table: u32,
) -> (r: HypDescent)
    ensures
        r.descended == (cpsr.spec_mode() == Some(ProcessorMode::Hyp)),
        r.descended ==> r.cpsr.spec_mode() == Some(ProcessorMode::Sys) && r.cpsr.spec_i()
            && r.cpsr.spec_f() && r.hvbar == vector_table && r.hactlr == (hactlr | enable_bits),
        !r.descended ==> r == (HypDescent { cpsr, hvbar, hactlr, descended: false }),
{
    let is_hyp = match cpsr.mode() {
        Some(m) => {
            match m {
                ProcessorMode::Hyp => true,
                _ => false,
            }
        },
        None => false,
    };
    if is_hyp {
        HypDescent {
            cpsr: Cpsr::entry_word(ProcessorMode::Sys),
            hvbar: vector_table,
            hactlr: hactlr | enable_bits,
            descended: true,
        }
    } else {
        HypDescent { cpsr, hvbar, hactlr, descended: false }
    }
}

/// The state the startup sequence hands to the application entry.
pub struct BootOutcome {
    /// The per-mode stack assignment.
    pub stacks: ModeStacks,
    /// The system control register after the Thumb-exception bit is
    /// cleared.
    pub sctlr: u32,
    /// The coprocessor-access register, with floating-point access granted
    /// where the configuration asked for the unit.
    pub cpacr: u32,
    /// The floating-point exception register's value, where the unit was
    /// enabled.
    pub fpexc: Option<u32>,
    /// The status word at handoff.
    pub cpsr: Cpsr,
    /// The register file at handoff.
    pub regs: GpRegs,
}

/// Run the startup sequence below the privilege-level step: partition the
/// stacks from the top-of-RAM address, clear the Thumb-exception-entry
/// bit, zero the zero-initialised data, copy the initialised data from its
/// read-only source, enable the floating-point unit where the
/// configuration asks for it, zero every general-purpose register, and
/// select System mode with IRQ and FIQ masked for the handoff to the
/// application entry.
pub fn run_startup(
    top: u32,
    sizes: &StackSizes,
    sctlr: u32,
    mem: &mut Vec<u32>,
    layout: &DataLayout,
    rom: &Vec<u32>,
    enable_fpu: bool,
    cpacr: u32,
) -> (r: BootOutcome)
    requires
        sizes.spec_total() <= top,
        layout.wf(old(mem)@.len(), rom@.len()),
    ensures
        r.stacks == spec_partition(top, *sizes),
        r.sctlr == sctlr & !SCTLR_TE_BIT,
        enable_fpu ==> r.cpacr == (cpacr | CPACR_FPU_ACCESS_BITS) && r.fpexc == Some(
            FPEXC_ENABLE_BIT,
        ),
        !enable_fpu ==> r.cpacr == cpacr && r.fpexc is None,
        r.cpsr.spec_mode() == Some(ProcessorMode::Sys),
        r.cpsr.spec_i(),
        r.cpsr.spec_f(),
        r.regs.spec_all_zero(),
        final(mem)@.len() == old(mem)@.len(),
        forall|j: int|
            layout.zero_start <= j < layout.zero_end ==> final(mem)@[j] == 0u32,
        forall|j: int|
            layout.data_start <= j < layout.data_start + layout.data_count ==> final(mem)@[j]
                == rom@[layout.rom_start + (j - layout.data_start)],
        forall|j: int|
            0 <= j < final(mem)@.len() && !(layout.zero_start <= j < layout.zero_end) && !(
            layout.data_start <= j < layout.data_start + layout.data_count) ==> final(mem)@[j]
                == old(mem)@[j],
{
    let stacks = partition_stacks(top, sizes);
    let sctlr_out = clear_te(sctlr);
    init_segments(mem, layout, rom);
    let (cpacr_out, fpexc) = if enable_fpu {
        let (c, f) = fpu_enable(cpacr);
        (c, Some(f))
    } else {
        (cpacr, None)
    };
    let regs = GpRegs::zeroed();
    let cpsr = Cpsr::entry_word(ProcessorMode::Sys);
    BootOutcome { stacks, sctlr: sctlr_out, cpacr: cpacr_out, fpexc, cpsr, regs }
}

} // verus!
