//! Exception-context save and restore, and the per-class trampolines.
//!
//! A mode's stack is modelled as the words it holds, newest last, together
//! with the address of its top. The trampoline for each exception class
//! captures the interrupted code's state onto such a stack on entry, hands
//! the class's argument to the handler, and on exit undoes the capture
//! exactly and produces the status-and-address pair the exception return
//! consumes.
//!
//! The save discipline follows the calling convention: only the
//! caller-saved registers (r0 to r3 and r12) are captured, the stack
//! pointer is realigned to an eight-byte boundary with the adjustment
//! itself recorded so the restore can undo it, and the banked return
//! address and saved status word are pushed first so the exception return
//! can consume them last.

use vstd::prelude::*;

verus! {

use crate::cpsr::Cpsr;

/// The caller-saved registers a trampoline must preserve itself: the
/// callee preserves r4 to r11 under the calling convention.
#[derive(Clone, Copy, Debug, PartialEq, Eq, Structural)]
pub struct ScratchRegs {
    pub r0: u32,
    pub r1: u32,
    pub r2: u32,
    pub r3: u32,
    pub r12: u32,
}

/// One mode's stack: a full-descending stack of 32-bit words. `words`
/// holds the live words oldest first, so a hardware push appends and the
/// stack pointer stands `4 * words.len()` bytes below `base`.
pub struct Stack {
    /// The address of the stack's top (its highest, empty end);
    /// eight-byte aligned.
    pub base: u32,
    /// The words on the stack, oldest first.
    pub words: Vec<u32>,
}

impl Stack {
    /// Well-formed: the top is eight-byte aligned and the held words fit
    /// below it.
    pub open spec fn wf(self) -> bool {
        &&& self.base % 8 == 0
        &&& 4 * self.words@.len() <= self.base
    }

    /// The current stack-pointer value.
    pub open spec fn spec_sp(self) -> u32 {
        (self.base - 4 * self.words@.len()) as u32
    }

    /// An empty stack topped at `base`.
    pub fn new(base: u32) -> (r: Stack)
        requires
            base % 8 == 0,
        ensures
            r.wf(),
            r.base == base,
            r.words@ == Seq::<u32>::empty(),
    {
        Stack { base, words: Vec::new() }
    }

    /// The current stack-pointer value.
    pub fn sp(&self) -> (r: u32)
        requires
            self.wf(),
        ensures
            r == self.spec_sp(),
    {
        self.base - 4 * (self.words.len() as u32)
    }

    /// Push one word.
    pub fn push(&mut self, w: u32)
        requires
            old(self).wf(),
            4 * (old(self).words@.len() + 1) <= old(self).base,
        ensures
            final(self).wf(),
            final(self).base == old(self).base,
            final(self).words@ == old(self).words@.push(w),
    {
        self.words.push(w);
    }

    /// Pop one word.
    pub fn pop(&mut self) -> (w: u32)
        requires
            old(self).wf(),
            old(self).words@.len() > 0,
        ensures
            final(self).wf(),
            final(self).base == old(self).base,
            w == old(self).words@.last(),
            final(self).words@ == old(self).words@.drop_last(),
    {
        let w = self.words.pop();
        match w {
            Some(x) => x,
            None => 0,
        }
    }
}

/// The number of padding words the save sequence inserts so the stack
/// pointer lands on an eight-byte boundary: one when the stack holds an
/// odd number of words, none otherwise.
pub open spec fn spec_pad_words(len: nat) -> nat {
    len % 2
}

/// The stack contents after the context save: the four low scratch
/// registers, the alignment padding, the recorded padding amount in
/// bytes, and r12.
pub open spec fn spec_save(words: Seq<u32>, r: ScratchRegs) -> Seq<u32> {
    let pushed = words.push(r.r0).push(r.r1).push(r.r2).push(r.r3);
    let padded = if spec_pad_words(words.len()) == 1 {
        pushed.push(0)
    } else {
        pushed
    };
    padded.push((4 * spec_pad_words(words.len())) as u32).push(r.r12)
}

/// A stack whose newest words form a saved context frame: deep enough,
/// with a valid recorded padding amount.
pub open spec fn spec_restorable(words: Seq<u32>) -> bool {
    let len = words.len();
    &&& len >= 6
    &&& (words[len - 2] == 0 || words[len - 2] == 4)
    &&& len >= 6 + words[len - 2] / 4
}

/// The registers the restore sequence reads back from the frame on top of
/// `words`.
pub open spec fn spec_restore_regs(words: Seq<u32>) -> ScratchRegs {
    let len = words.len() as int;
    let k = (words[len - 2] / 4) as int;
    ScratchRegs {
        r0: words[len - 6 - k],
        r1: words[len - 5 - k],
        r2: words[len - 4 - k],
        r3: words[len - 3 - k],
        r12: words[len - 1],
    }
}

/// The stack contents after the restore sequence has consumed the frame on
/// top of `words`.
pub open spec fn spec_restore_words(words: Seq<u32>) -> Seq<u32> {
    let len = words.len() as int;
    let k = (words[len - 2] / 4) as int;
    words.subrange(0, len - 6 - k)
}

/// Restoring a just-saved frame yields back exactly the registers that
/// were saved and exactly the stack that stood before the save.
pub proof fn lemma_save_restore(words: Seq<u32>, r: ScratchRegs)
    ensures
        spec_restorable(spec_save(words, r)),
        spec_restore_regs(spec_save(words, r)) == r,
        spec_restore_words(spec_save(words, r)) == words,
{
    let saved = spec_save(words, r);
    assert(spec_restore_words(saved) =~= words);
}

/// Save the interrupted context: push r0 to r3, realign the stack pointer
/// to an eight-byte boundary, and push the realignment amount and r12.
pub fn save_context(stack: &mut Stack, regs: &ScratchRegs)
    requires
        old(stack).wf(),
        4 * (old(stack).words@.len() + 7) <= old(stack).base,
    ensures
        final(stack).wf(),
        final(stack).base == old(stack).base,
        final(stack).words@ == spec_save(old(stack).words@, *regs),
        final(stack).spec_sp() % 8 == 0,
    {
        stack.push(regs.r0);
        stack.push(regs.r1);
        stack.push(regs.r2);
        stack.push(regs.r3);
        // the stack pointer is eight-byte aligned exactly when the word
        // count is even
        let pad: u32 = if stack.words.len() % 2 == 1 {
            stack.push(0);
            4
        } else {
            0
        };
        stack.push(pad);
        stack.push(regs.r12);
    }

/// Undo `save_context`: pop r12 and the recorded realignment amount, drop
/// the padding, and pop r3 down to r0.
pub fn restore_context(stack: &mut Stack) -> (regs: ScratchRegs)
    requires
        old(stack).wf(),
        spec_restorable(old(stack).words@),
    ensures
        final(stack).wf(),
        final(stack).base == old(stack).base,
        regs == spec_restore_regs(old(stack).words@),
        final(stack).words@ == spec_restore_words(old(stack).words@),
{
    let r12 = stack.pop();
    let pad = stack.pop();
    if pad == 4 {
        let _dropped = stack.pop();
    }
    let r3 = stack.pop();
    let r2 = stack.pop();
    let r1 = stack.pop();
    let r0 = stack.pop();
    proof {
        assert(stack.words@ =~= spec_restore_words(old(stack).words@));
    }
    ScratchRegs { r0, r1, r2, r3, r12 }
}

/// The floating-point state a trampoline must preserve when the unit is in
/// use: the caller-saved double registers as word pairs, and the two
/// status words. The callee preserves d8 to d15 under the calling
/// convention, so a sixteen-register unit contributes sixteen words (d0 to
/// d7) and a thirty-two-register unit sixty-four words (d0 to d7 and d16
/// to d31).
pub struct FpuContext {
    /// The caller-saved double registers, as words, in push order.
    pub dwords: Vec<u32>,
    /// The floating-point status and control register.
    pub fpscr: u32,
    /// The floating-point exception register.
    pub fpexc: u32,
}

/// The stack contents after the context save with floating-point state:
/// the four low scratch registers, the double registers, the two
/// floating-point status words, the alignment padding, the recorded
/// padding amount, and r12.
pub open spec fn spec_save_fpu(words: Seq<u32>, r: ScratchRegs, f: FpuContext) -> Seq<u32> {
    let pushed = words.push(r.r0).push(r.r1).push(r.r2).push(r.r3) + f.dwords@;
    let with_status = pushed.push(f.fpscr).push(f.fpexc);
    let padded = if with_status.len() % 2 == 1 {
        with_status.push(0)
    } else {
        with_status
    };
    padded.push((4 * (with_status.len() % 2)) as u32).push(r.r12)
}

/// Save the interrupted context together with the floating-point state:
/// push r0 to r3, the double registers and both floating-point status
/// words, realign to an eight-byte boundary, and push the realignment
/// amount and r12.
pub fn save_context_fpu(stack: &mut Stack, regs: &ScratchRegs, fpu: &FpuContext)
    requires
        old(stack).wf(),
        4 * (old(stack).words@.len() + fpu.dwords@.len() + 9) <= old(stack).base,
    ensures
        final(stack).wf(),
        final(stack).base == old(stack).base,
        final(stack).words@ == spec_save_fpu(old(stack).words@, *regs, *fpu),
        final(stack).spec_sp() % 8 == 0,
{
    stack.push(regs.r0);
    stack.push(regs.r1);
    stack.push(regs.r2);
    stack.push(regs.r3);
    let mut i: usize = 0;
    let n = fpu.dwords.len();
    while i < n
        invariant
            i <= n,
            n == fpu.dwords@.len(),
            stack.wf(),
            stack.base == old(stack).base,
            stack.words@ == old(stack).words@.push(regs.r0).push(regs.r1).push(regs.r2).push(
                regs.r3,
            ) + fpu.dwords@.subrange(0, i as int),
            4 * (old(stack).words@.len() + fpu.dwords@.len() + 9) <= old(stack).base,
        decreases n - i,
    {
        stack.push(fpu.dwords[i]);
        proof {
            assert(stack.words@ =~= old(stack).words@.push(regs.r0).push(regs.r1).push(
                regs.r2,
            ).push(regs.r3) + fpu.dwords@.subrange(0, i + 1));
        }
        i = i + 1;
    }
    proof {
        assert(fpu.dwords@.subrange(0, fpu.dwords@.len() as int) =~= fpu.dwords@);
    }
    stack.push(fpu.fpscr);
    stack.push(fpu.fpexc);
    let pad: u32 = if stack.words.len() % 2 == 1 {
        stack.push(0);
        4
    } else {
        0
    };
    stack.push(pad);
    stack.push(regs.r12);
}

/// A stack whose newest words form a saved floating-point context frame
/// with `count` double-register words: deep enough, with a valid recorded
/// padding amount.
pub open spec fn spec_restorable_fpu(words: Seq<u32>, count: nat) -> bool {
    let len = words.len();
    &&& len >= 8 + count
    &&& (words[len - 2] == 0 || words[len - 2] == 4)
    &&& len >= 8 + count + words[len - 2] / 4
}

/// What the floating-point restore sequence reads and leaves: the stack
/// below the frame, the scratch registers, the double-register words, and
/// the two floating-point status words.
pub open spec fn spec_restore_fpu(words: Seq<u32>, count: nat) -> (
    Seq<u32>,
    ScratchRegs,
    Seq<u32>,
    u32,
    u32,
) {
    let len = words.len() as int;
    let k = (words[len - 2] / 4) as int;
    let regs = ScratchRegs {
        r0: words[len - 8 - k - count],
        r1: words[len - 7 - k - count],
        r2: words[len - 6 - k - count],
        r3: words[len - 5 - k - count],
        r12: words[len - 1],
    };
    (
        words.subrange(0, len - 8 - k - count),
        regs,
        words.subrange(len - 4 - k - count, len - 4 - k),
        words[len - 4 - k],
        words[len - 3 - k],
    )
}

/// Undo `save_context_fpu` for a frame holding `count` double-register
/// words: pop r12 and the recorded realignment amount, drop the padding,
/// pop the floating-point status words and double registers, and pop r3
/// down to r0.
pub fn restore_context_fpu(stack: &mut Stack, count: usize) -> (r: (ScratchRegs, FpuContext))
    requires
        old(stack).wf(),
        spec_restorable_fpu(old(stack).words@, count as nat),
    ensures
        final(stack).wf(),
        final(stack).base == old(stack).base,
        final(stack).words@ == spec_restore_fpu(old(stack).words@, count as nat).0,
        r.0 == spec_restore_fpu(old(stack).words@, count as nat).1,
        r.1.dwords@ == spec_restore_fpu(old(stack).words@, count as nat).2,
        r.1.fpscr == spec_restore_fpu(old(stack).words@, count as nat).3,
        r.1.fpexc == spec_restore_fpu(old(stack).words@, count as nat).4,
{
    let r12 = stack.pop();
    let pad = stack.pop();
    if pad == 4 {
        let _dropped = stack.pop();
    }
    let fpexc = stack.pop();
    let fpscr = stack.pop();
    let mut dwords: Vec<u32> = Vec::new();
    let mut i: usize = 0;
    let ghost mid = stack.words@;
    while i < count
        invariant
            i <= count,
            count <= mid.len(),
            stack.wf(),
            stack.base == old(stack).base,
            stack.words@ == mid.subrange(0, mid.len() - i),
            dwords@ == mid.subrange(mid.len() - i, mid.len() as int),
        decreases count - i,
    {
        let w = stack.pop();
        dwords.insert(0, w);
        proof {
            assert(stack.words@ =~= mid.subrange(0, mid.len() - (i + 1)));
            assert(dwords@ =~= mid.subrange(mid.len() - (i + 1), mid.len() as int));
        }
        i = i + 1;
    }
    let r3 = stack.pop();
    let r2 = stack.pop();
    let r1 = stack.pop();
    let r0 = stack.pop();
    proof {
        assert(final(stack).words@ =~= spec_restore_fpu(old(stack).words@, count as nat).0);
        assert(dwords@ =~= spec_restore_fpu(old(stack).words@, count as nat).2);
    }
    (ScratchRegs { r0, r1, r2, r3, r12 }, FpuContext { dwords, fpscr, fpexc })
}

/// Restoring a just-saved floating-point frame yields back exactly the
/// registers and floating-point state that were saved, over exactly the
/// stack that stood before the save.
pub proof fn lemma_save_restore_fpu(words: Seq<u32>, r: ScratchRegs, f: FpuContext)
    ensures
        spec_restorable_fpu(spec_save_fpu(words, r, f), f.dwords@.len()),
        spec_restore_fpu(spec_save_fpu(words, r, f), f.dwords@.len()).0 == words,
        spec_restore_fpu(spec_save_fpu(words, r, f), f.dwords@.len()).1 == r,
        spec_restore_fpu(spec_save_fpu(words, r, f), f.dwords@.len()).2 == f.dwords@,
        spec_restore_fpu(spec_save_fpu(words, r, f), f.dwords@.len()).3 == f.fpscr,
        spec_restore_fpu(spec_save_fpu(words, r, f), f.dwords@.len()).4 == f.fpexc,
{
    let saved = spec_save_fpu(words, r, f);
    let count = f.dwords@.len();
    assert(spec_restore_fpu(saved, count).0 =~= words);
    assert(spec_restore_fpu(saved, count).2 =~= f.dwords@);
}

/// The stack contents after the exception-entry store (`srs`): the saved
/// status word, then the banked return address.
pub open spec fn spec_srs(words: Seq<u32>, lr: u32, spsr: u32) -> Seq<u32> {
    words.push(spsr).push(lr)
}

/// Push the banked return address and saved status word of the
/// interrupted code, as the exception-entry store instruction does.
pub fn srs_push(stack: &mut Stack, lr: u32, spsr: Cpsr)
    requires
        old(stack).wf(),
        4 * (old(stack).words@.len() + 2) <= old(stack).base,
    ensures
        final(stack).wf(),
        final(stack).base == old(stack).base,
        final(stack).words@ == spec_srs(old(stack).words@, lr, spsr.raw),
{
    stack.push(spsr.raw);
    stack.push(lr);
}

/// The status-and-address pair an exception return consumes: execution
/// resumes at `address` with the status word set to `status`, atomically.
#[derive(Clone, Copy, Debug, PartialEq, Eq, Structural)]
pub struct ExceptionReturn {
    /// The address execution resumes at.
    pub address: u32,
    /// The status word restored on return.
    pub status: Cpsr,
}

/// Pop the return-address and status pair pushed by `srs_push`, as the
/// return-from-exception instruction does.
pub fn rfe_pop(stack: &mut Stack) -> (r: ExceptionReturn)
    requires
        old(stack).wf(),
        old(stack).words@.len() >= 2,
    ensures
        final(stack).wf(),
        final(stack).base == old(stack).base,
        r.address == old(stack).words@[old(stack).words@.len() - 1],
        r.status.raw == old(stack).words@[old(stack).words@.len() - 2],
        final(stack).words@ == old(stack).words@.subrange(0, old(stack).words@.len() - 2),
{
    let address = stack.pop();
    let status_raw = stack.pop();
    proof {
        assert(stack.words@ =~= old(stack).words@.subrange(
            0,
            old(stack).words@.len() - 2,
        ));
    }
    ExceptionReturn { address, status: Cpsr { raw: status_raw } }
}

/// The stack contents after a non-IRQ trampoline's entry phase: the saved
/// status and the (already adjusted) return address, then the scratch
/// frame.
pub open spec fn spec_exception_entry(
    words: Seq<u32>,
    adjusted_lr: u32,
    spsr: u32,
    s: ScratchRegs,
) -> Seq<u32> {
    spec_save(spec_srs(words, adjusted_lr, spsr), s)
}

/// A stack on which a non-IRQ trampoline's exit phase can run: a scratch
/// frame on top of the status-and-address pair.
pub open spec fn spec_exception_exit_pre(words: Seq<u32>) -> bool {
    &&& spec_restorable(words)
    &&& spec_restore_words(words).len() >= 2
}

/// What a non-IRQ trampoline's exit phase leaves and produces: the stack
/// below the frame, the restored scratch registers, the resume address,
/// and the restored status word.
pub open spec fn spec_exception_exit(words: Seq<u32>) -> (Seq<u32>, ScratchRegs, u32, u32) {
    let rest = spec_restore_words(words);
    (
        rest.subrange(0, rest.len() - 2),
        spec_restore_regs(words),
        rest[rest.len() - 1],
        rest[rest.len() - 2],
    )
}

/// A trampoline's exit phase undoes its entry phase exactly: the stack
/// returns to what it held before the exception, the scratch registers
/// come back bit-for-bit, and the exception return consumes exactly the
/// status and (adjusted) address captured at entry.
pub proof fn lemma_exception_roundtrip(
    words: Seq<u32>,
    adjusted_lr: u32,
    spsr: u32,
    s: ScratchRegs,
)
    ensures
        spec_exception_exit_pre(spec_exception_entry(words, adjusted_lr, spsr, s)),
        spec_exception_exit(spec_exception_entry(words, adjusted_lr, spsr, s)) == (
            words,
            s,
            adjusted_lr,
            spsr,
        ),
{
    let pushed = spec_srs(words, adjusted_lr, spsr);
    lemma_save_restore(pushed, s);
    assert(spec_exception_exit(spec_exception_entry(words, adjusted_lr, spsr, s)).0
        =~= words);
}

/// What a trampoline exit returns: the restored scratch registers and the
/// status-and-address pair the exception return consumes.
#[derive(Clone, Copy, Debug, PartialEq, Eq, Structural)]
pub struct TrampolineExit {
    /// The scratch registers restored from the stack.
    pub regs: ScratchRegs,
    /// The resume address and restored status word.
    pub ret: ExceptionReturn,
}

/// Entry phase shared by the Undefined, Supervisor Call and Abort
/// trampolines: push the saved status and the adjusted return address,
/// then save the scratch registers.
pub fn exception_entry(stack: &mut Stack, adjusted_lr: u32, spsr: Cpsr, scratch: &ScratchRegs)
    requires
        old(stack).wf(),
        4 * (old(stack).words@.len() + 9) <= old(stack).base,
    ensures
        final(stack).wf(),
        final(stack).base == old(stack).base,
        final(stack).words@ == spec_exception_entry(
            old(stack).words@,
            adjusted_lr,
            spsr.raw,
            *scratch,
        ),
{
    srs_push(stack, adjusted_lr, spsr);
    save_context(stack, scratch);
}

/// Exit phase for a trampoline whose handler does not choose a resume
/// address (a supervisor call): restore the scratch registers and return
/// from the exception at exactly the captured address.
pub fn exception_exit(stack: &mut Stack) -> (r: TrampolineExit)
    requires
        old(stack).wf(),
        spec_exception_exit_pre(old(stack).words@),
    ensures
        final(stack).wf(),
        final(stack).base == old(stack).base,
        (final(stack).words@, r.regs, r.ret.address, r.ret.status.raw)
            == spec_exception_exit(old(stack).words@),
{
    let regs = restore_context(stack);
    let ret = rfe_pop(stack);
    TrampolineExit { regs, ret }
}

/// Exit phase for a trampoline whose handler returned the address to
/// resume at (Undefined and the Aborts): the captured return address is
/// overwritten with the handler's choice before the exception return.
pub fn exception_exit_to(stack: &mut Stack, handler_ret: u32) -> (r: TrampolineExit)
    requires
        old(stack).wf(),
        spec_exception_exit_pre(old(stack).words@),
    ensures
        final(stack).wf(),
        final(stack).base == old(stack).base,
        r.regs == spec_exception_exit(old(stack).words@).1,
        r.ret.address == handler_ret,
        r.ret.status.raw == spec_exception_exit(old(stack).words@).3,
        final(stack).words@ == spec_exception_exit(old(stack).words@).0,
{
    let regs = restore_context(stack);
    // overwrite the captured return address with the handler's choice
    let _captured = stack.pop();
    stack.push(handler_ret);
    let ret = rfe_pop(stack);
    proof {
        assert(final(stack).words@ =~= spec_exception_exit(old(stack).words@).0);
    }
    TrampolineExit { regs, ret }
}

/// The stack contents after the IRQ trampoline's entry phase, on the
/// System-mode stack: the saved status and the adjusted return address,
/// then the System-mode link register (so a nested interrupt cannot
/// clobber it), then the scratch frame.
pub open spec fn spec_irq_entry(
    words: Seq<u32>,
    hw_lr: u32,
    spsr: u32,
    lr_sys: u32,
    s: ScratchRegs,
) -> Seq<u32> {
    spec_save(spec_srs(words, (hw_lr - 4) as u32, spsr).push(lr_sys), s)
}

/// A stack on which the IRQ trampoline's exit phase can run.
pub open spec fn spec_irq_exit_pre(words: Seq<u32>) -> bool {
    &&& spec_restorable(words)
    &&& spec_restore_words(words).len() >= 3
}

/// What the IRQ trampoline's exit phase leaves and produces: the stack
/// below the frame, the restored scratch registers, the restored
/// System-mode link register, the resume address, and the restored status
/// word.
pub open spec fn spec_irq_exit(words: Seq<u32>) -> (Seq<u32>, ScratchRegs, u32, u32, u32) {
    let rest = spec_restore_words(words);
    (
        rest.subrange(0, rest.len() - 3),
        spec_restore_regs(words),
        rest[rest.len() - 1],
        rest[rest.len() - 2],
        rest[rest.len() - 3],
    )
}

/// IRQ entry phase. The hardware banked the interrupted code's status and
/// (return address + 4); the trampoline adjusts the address, pushes both
/// to the System-mode stack, switches to System mode, preserves that
/// mode's link register, and saves the scratch registers.
pub fn irq_entry(stack: &mut Stack, hw_lr: u32, spsr: Cpsr, lr_sys: u32, scratch: &ScratchRegs)
    requires
        old(stack).wf(),
        hw_lr >= 4,
        4 * (old(stack).words@.len() + 10) <= old(stack).base,
    ensures
        final(stack).wf(),
        final(stack).base == old(stack).base,
        final(stack).words@ == spec_irq_entry(
            old(stack).words@,
            hw_lr,
            spsr.raw,
            lr_sys,
            *scratch,
        ),
{
    srs_push(stack, hw_lr - 4, spsr);
    stack.push(lr_sys);
    save_context(stack, scratch);
}

/// What the IRQ trampoline's exit phase returns.
#[derive(Clone, Copy, Debug, PartialEq, Eq, Structural)]
pub struct IrqExit {
    /// The scratch registers restored from the stack.
    pub regs: ScratchRegs,
    /// The System-mode link register, restored intact.
    pub lr_sys: u32,
    /// The resume address and restored status word.
    pub ret: ExceptionReturn,
}

/// IRQ exit phase: restore the scratch registers, restore the System-mode
/// link register, and return from the exception at the captured (adjusted)
/// address with the captured status.
pub fn irq_exit(stack: &mut Stack) -> (r: IrqExit)
    requires
        old(stack).wf(),
        spec_irq_exit_pre(old(stack).words@),
    ensures
        final(stack).wf(),
        final(stack).base == old(stack).base,
        (final(stack).words@, r.regs, r.lr_sys, r.ret.address, r.ret.status.raw)
            == spec_irq_exit(old(stack).words@),
{
    let regs = restore_context(stack);
    let lr_sys = stack.pop();
    let ret = rfe_pop(stack);
    proof {
        assert(final(stack).words@ =~= spec_irq_exit(old(stack).words@).0);
    }
    IrqExit { regs, lr_sys, ret }
}

/// The IRQ exit phase undoes the IRQ entry phase exactly.
pub proof fn lemma_irq_roundtrip(
    words: Seq<u32>,
    hw_lr: u32,
    spsr: u32,
    lr_sys: u32,
    s: ScratchRegs,
)
    ensures
        spec_irq_exit_pre(spec_irq_entry(words, hw_lr, spsr, lr_sys, s)),
        spec_irq_exit(spec_irq_entry(words, hw_lr, spsr, lr_sys, s)) == (
            words,
            s,
            lr_sys,
            (hw_lr - 4) as u32,
            spsr,
        ),
{
    let pushed = spec_srs(words, (hw_lr - 4) as u32, spsr).push(lr_sys);
    lemma_save_restore(pushed, s);
    assert(spec_irq_exit(spec_irq_entry(words, hw_lr, spsr, lr_sys, s)).0 =~= words);
}

/// Re-entrant IRQ handling is safe: if a first interrupt's handler unmasks
/// interrupts and a second interrupt arrives before the first completes,
/// the second trampoline's entry and exit leave the System-mode stack
/// exactly as the first trampoline's entry left it, so the first
/// invocation then completes with its own saved link register and return
/// address intact.
pub proof fn lemma_irq_reentrancy(
    words: Seq<u32>,
    hw_lr1: u32,
    spsr1: u32,
    lr_sys1: u32,
    s1: ScratchRegs,
    hw_lr2: u32,
    spsr2: u32,
    lr_sys2: u32,
    s2: ScratchRegs,
)
    ensures
        spec_irq_exit(
            spec_irq_entry(
                spec_irq_entry(words, hw_lr1, spsr1, lr_sys1, s1),
                hw_lr2,
                spsr2,
                lr_sys2,
                s2,
            ),
        ).0 == spec_irq_entry(words, hw_lr1, spsr1, lr_sys1, s1),
        spec_irq_exit(
            spec_irq_entry(
                spec_irq_entry(words, hw_lr1, spsr1, lr_sys1, s1),
                hw_lr2,
                spsr2,
                lr_sys2,
                s2,
            ),
        ).2 == lr_sys2,
        spec_irq_exit(spec_irq_entry(words, hw_lr1, spsr1, lr_sys1, s1)) == (
            words,
            s1,
            lr_sys1,
            (hw_lr1 - 4) as u32,
            spsr1,
        ),
{
    let outer = spec_irq_entry(words, hw_lr1, spsr1, lr_sys1, s1);
    lemma_irq_roundtrip(outer, hw_lr2, spsr2, lr_sys2, s2);
    lemma_irq_roundtrip(words, hw_lr1, spsr1, lr_sys1, s1);
}

/// Undefined Instruction entry: adjust the banked return address by 2
/// (from Thumb state) or 4 (from Arm state), capture the context, and
/// return the faulting instruction's address as the handler argument.
pub fn undefined_entry(stack: &mut Stack, hw_lr: u32, spsr: Cpsr, scratch: &ScratchRegs) -> (arg:
    u32)
    requires
        old(stack).wf(),
        hw_lr >= 4,
        4 * (old(stack).words@.len() + 9) <= old(stack).base,
    ensures
        arg == crate::exception::spec_handler_address(
            crate::exception::ExceptionClass::Undefined,
            hw_lr,
            spsr.spec_t(),
        ),
        final(stack).wf(),
        final(stack).base == old(stack).base,
        final(stack).words@ == spec_exception_entry(old(stack).words@, arg, spsr.raw, *scratch),
{
    let arg = crate::exception::handler_address(
        crate::exception::ExceptionClass::Undefined,
        hw_lr,
        spsr.t(),
    );
    exception_entry(stack, arg, spsr, scratch);
    arg
}

/// Supervisor Call entry: the banked return address needs no adjustment;
/// the handler argument is the immediate operand extracted from the
/// fetched `svc` instruction (`instr` is the halfword at address - 2 under
/// Thumb, the word at address - 4 under Arm).
pub fn svc_entry(
    stack: &mut Stack,
    hw_lr: u32,
    spsr: Cpsr,
    scratch: &ScratchRegs,
    instr: u32,
) -> (imm: u32)
    requires
        old(stack).wf(),
        4 * (old(stack).words@.len() + 9) <= old(stack).base,
    ensures
        imm == crate::exception::spec_svc_immediate(spsr.spec_t(), instr),
        final(stack).wf(),
        final(stack).base == old(stack).base,
        final(stack).words@ == spec_exception_entry(old(stack).words@, hw_lr, spsr.raw, *scratch),
{
    exception_entry(stack, hw_lr, spsr, scratch);
    crate::exception::svc_handler_argument(spsr, instr)
}

/// Prefetch Abort entry: adjust the banked return address by 4, capture
/// the context, and return the faulting instruction's address.
pub fn prefetch_abort_entry(
    stack: &mut Stack,
    hw_lr: u32,
    spsr: Cpsr,
    scratch: &ScratchRegs,
) -> (arg: u32)
    requires
        old(stack).wf(),
        hw_lr >= 4,
        4 * (old(stack).words@.len() + 9) <= old(stack).base,
    ensures
        arg == crate::exception::spec_handler_address(
            crate::exception::ExceptionClass::PrefetchAbort,
            hw_lr,
            spsr.spec_t(),
        ),
        arg == hw_lr - 4,
        final(stack).wf(),
        final(stack).base == old(stack).base,
        final(stack).words@ == spec_exception_entry(old(stack).words@, arg, spsr.raw, *scratch),
{
    let arg = crate::exception::handler_address(
        crate::exception::ExceptionClass::PrefetchAbort,
        hw_lr,
        spsr.t(),
    );
    exception_entry(stack, arg, spsr, scratch);
    arg
}

/// Data Abort entry: adjust the banked return address by 8, capture the
/// context, and return the faulting instruction's address.
pub fn data_abort_entry(stack: &mut Stack, hw_lr: u32, spsr: Cpsr, scratch: &ScratchRegs) -> (arg:
    u32)
    requires
        old(stack).wf(),
        hw_lr >= 8,
        4 * (old(stack).words@.len() + 9) <= old(stack).base,
    ensures
        arg == crate::exception::spec_handler_address(
            crate::exception::ExceptionClass::DataAbort,
            hw_lr,
            spsr.spec_t(),
        ),
        arg == hw_lr - 8,
        final(stack).wf(),
        final(stack).base == old(stack).base,
        final(stack).words@ == spec_exception_entry(old(stack).words@, arg, spsr.raw, *scratch),
{
    let arg = crate::exception::handler_address(
        crate::exception::ExceptionClass::DataAbort,
        hw_lr,
        spsr.t(),
    );
    exception_entry(stack, arg, spsr, scratch);
    arg
}

} // verus!
