//! The processor status word (CPSR/SPSR) and the processor-mode encoding.
//!
//! A status word is held as its raw 32-bit pattern, with accessor methods
//! over named bit positions, as the architecture defines them: the mode in
//! bits 0..=4, the Thumb state bit at 5, the FIQ mask at 6, the IRQ mask
//! at 7, and the condition flags in the top four bits.

use vstd::prelude::*;

verus! {

/// Bit mask for the mode field (bits 0..=4).
pub const MODE_MASK: u32 = 0x1F;

/// Bit mask for the Thumb state bit (bit 5).
pub const T_BIT: u32 = 0x20;

/// Bit mask for the FIQ mask bit (bit 6); set means FIQ is masked.
pub const F_BIT: u32 = 0x40;

/// Bit mask for the IRQ mask bit (bit 7); set means IRQ is masked.
pub const I_BIT: u32 = 0x80;

/// Bit mask for the overflow condition flag (bit 28).
pub const V_BIT: u32 = 0x1000_0000;

/// Bit mask for the carry condition flag (bit 29).
pub const C_BIT: u32 = 0x2000_0000;

/// Bit mask for the zero condition flag (bit 30).
pub const Z_BIT: u32 = 0x4000_0000;

/// Bit mask for the negative condition flag (bit 31).
pub const N_BIT: u32 = 0x8000_0000;

/// One of the nine AArch32 processor modes, as encoded in the bottom five
/// bits of the status word.
#[derive(Clone, Copy, Debug, PartialEq, Eq, Structural)]
pub enum ProcessorMode {
    /// User mode (0b10000)
    Usr,
    /// FIQ mode (0b10001)
    Fiq,
    /// IRQ mode (0b10010)
    Irq,
    /// Supervisor mode (0b10011)
    Svc,
    /// Monitor mode (0b10110)
    Mon,
    /// Abort mode (0b10111)
    Abt,
    /// Hyp mode (0b11010)
    Hyp,
    /// Undefined mode (0b11011)
    Und,
    /// System mode (0b11111)
    Sys,
}

impl ProcessorMode {
    /// The five-bit encoding of this mode.
    pub open spec fn spec_bits(self) -> u32 {
        match self {
            ProcessorMode::Usr => 0x10,
            ProcessorMode::Fiq => 0x11,
            ProcessorMode::Irq => 0x12,
            ProcessorMode::Svc => 0x13,
            ProcessorMode::Mon => 0x16,
            ProcessorMode::Abt => 0x17,
            ProcessorMode::Hyp => 0x1A,
            ProcessorMode::Und => 0x1B,
            ProcessorMode::Sys => 0x1F,
        }
    }

    /// The five-bit encoding of this mode.
    pub fn bits(self) -> (r: u32)
        ensures
            r == self.spec_bits(),
            r <= MODE_MASK,
    {
        match self {
            ProcessorMode::Usr => 0x10,
            ProcessorMode::Fiq => 0x11,
            ProcessorMode::Irq => 0x12,
            ProcessorMode::Svc => 0x13,
            ProcessorMode::Mon => 0x16,
            ProcessorMode::Abt => 0x17,
            ProcessorMode::Hyp => 0x1A,
            ProcessorMode::Und => 0x1B,
            ProcessorMode::Sys => 0x1F,
        }
    }

    /// The mode a five-bit encoding names, if any.
    pub open spec fn spec_from_bits(b: u32) -> Option<ProcessorMode> {
        if b == 0x10 {
            Some(ProcessorMode::Usr)
        } else if b == 0x11 {
            Some(ProcessorMode::Fiq)
        } else if b == 0x12 {
            Some(ProcessorMode::Irq)
        } else if b == 0x13 {
            Some(ProcessorMode::Svc)
        } else if b == 0x16 {
            Some(ProcessorMode::Mon)
        } else if b == 0x17 {
            Some(ProcessorMode::Abt)
        } else if b == 0x1A {
            Some(ProcessorMode::Hyp)
        } else if b == 0x1B {
            Some(ProcessorMode::Und)
        } else if b == 0x1F {
            Some(ProcessorMode::Sys)
        } else {
            None
        }
    }

    /// Decode a five-bit encoding; `None` for the reserved encodings.
    pub fn from_bits(b: u32) -> (r: Option<ProcessorMode>)
        ensures
            r == Self::spec_from_bits(b),
    {
        if b == 0x10 {
            Some(ProcessorMode::Usr)
        } else if b == 0x11 {
            Some(ProcessorMode::Fiq)
        } else if b == 0x12 {
            Some(ProcessorMode::Irq)
        } else if b == 0x13 {
            Some(ProcessorMode::Svc)
        } else if b == 0x16 {
            Some(ProcessorMode::Mon)
        } else if b == 0x17 {
            Some(ProcessorMode::Abt)
        } else if b == 0x1A {
            Some(ProcessorMode::Hyp)
        } else if b == 0x1B {
            Some(ProcessorMode::Und)
        } else if b == 0x1F {
            Some(ProcessorMode::Sys)
        } else {
            None
        }
    }
}

/// Every mode encoding decodes back to the mode it encodes.
pub proof fn lemma_mode_bits_roundtrip(m: ProcessorMode)
    ensures
        ProcessorMode::spec_from_bits(m.spec_bits()) == Some(m),
{
}

/// The processor status word, held as its raw bit pattern.
#[derive(Clone, Copy, Debug, PartialEq, Eq, Structural)]
pub struct Cpsr {
    /// The raw 32-bit value.
    pub raw: u32,
}

impl Cpsr {
    /// Wrap a raw 32-bit status value.
    pub fn new_with_raw_value(raw: u32) -> (r: Cpsr)
        ensures
            r.raw == raw,
    {
        Cpsr { raw }
    }

    /// The raw 32-bit status value.
    pub fn raw_value(self) -> (r: u32)
        ensures
            r == self.raw,
    {
        self.raw
    }

    /// The five mode bits of this status word.
    pub open spec fn spec_mode_bits(self) -> u32 {
        self.raw & MODE_MASK
    }

    /// The mode this status word selects, if its encoding is valid.
    pub open spec fn spec_mode(self) -> Option<ProcessorMode> {
        ProcessorMode::spec_from_bits(self.spec_mode_bits())
    }

    /// True when the Thumb state bit is set.
    pub open spec fn spec_t(self) -> bool {
        self.raw & T_BIT != 0
    }

    /// True when the FIQ mask bit is set (FIQ masked).
    pub open spec fn spec_f(self) -> bool {
        self.raw & F_BIT != 0
    }

    /// True when the IRQ mask bit is set (IRQ masked).
    pub open spec fn spec_i(self) -> bool {
        self.raw & I_BIT != 0
    }

    /// True when the overflow flag is set.
    pub open spec fn spec_v(self) -> bool {
        self.raw & V_BIT != 0
    }

    /// True when the carry flag is set.
    pub open spec fn spec_c(self) -> bool {
        self.raw & C_BIT != 0
    }

    /// True when the zero flag is set.
    pub open spec fn spec_z(self) -> bool {
        self.raw & Z_BIT != 0
    }

    /// True when the negative flag is set.
    pub open spec fn spec_n(self) -> bool {
        self.raw & N_BIT != 0
    }

    /// Read the mode field.
    pub fn mode(self) -> (r: Option<ProcessorMode>)
        ensures
            r == self.spec_mode(),
    {
        ProcessorMode::from_bits(self.raw & MODE_MASK)
    }

    /// Read the Thumb state bit.
    pub fn t(self) -> (r: bool)
        ensures
            r == self.spec_t(),
    {
        self.raw & T_BIT != 0
    }

    /// Read the FIQ mask bit.
    pub fn f(self) -> (r: bool)
        ensures
            r == self.spec_f(),
    {
        self.raw & F_BIT != 0
    }

    /// Read the IRQ mask bit.
    pub fn i(self) -> (r: bool)
        ensures
            r == self.spec_i(),
    {
        self.raw & I_BIT != 0
    }

    /// Read the overflow flag.
    pub fn v(self) -> (r: bool)
        ensures
            r == self.spec_v(),
    {
        self.raw & V_BIT != 0
    }

    /// Read the carry flag.
    pub fn c(self) -> (r: bool)
        ensures
            r == self.spec_c(),
    {
        self.raw & C_BIT != 0
    }

    /// Read the zero flag.
    pub fn z(self) -> (r: bool)
        ensures
            r == self.spec_z(),
    {
        self.raw & Z_BIT != 0
    }

    /// Read the negative flag.
    pub fn n(self) -> (r: bool)
        ensures
            r == self.spec_n(),
    {
        self.raw & N_BIT != 0
    }

    /// The raw value with the mode field replaced by `m`'s encoding.
    pub open spec fn spec_with_mode(self, m: ProcessorMode) -> Cpsr {
        Cpsr { raw: (self.raw & !MODE_MASK) | m.spec_bits() }
    }

    /// Replace the mode field.
    pub fn with_mode(self, m: ProcessorMode) -> (r: Cpsr)
        ensures
            r == self.spec_with_mode(m),
            r.spec_mode() == Some(m),
            r.spec_t() == self.spec_t(),
            r.spec_f() == self.spec_f(),
            r.spec_i() == self.spec_i(),
    {
        let b = m.bits();
        let r = Cpsr { raw: (self.raw & !MODE_MASK) | b };
        proof {
            lemma_mode_field_update(self.raw, b);
        }
        r
    }

    /// The raw value with the Thumb bit set to `v`.
    pub open spec fn spec_with_t(self, v: bool) -> Cpsr {
        if v {
            Cpsr { raw: self.raw | T_BIT }
        } else {
            Cpsr { raw: self.raw & !T_BIT }
        }
    }

    /// Set or clear the Thumb state bit.
    pub fn with_t(self, v: bool) -> (r: Cpsr)
        ensures
            r == self.spec_with_t(v),
            r.spec_t() == v,
            r.spec_mode_bits() == self.spec_mode_bits(),
            r.spec_f() == self.spec_f(),
            r.spec_i() == self.spec_i(),
    {
        let r = if v {
            Cpsr { raw: self.raw | T_BIT }
        } else {
            Cpsr { raw: self.raw & !T_BIT }
        };
        proof {
            lemma_single_bit_update(self.raw, T_BIT);
        }
        r
    }

    /// The raw value with the FIQ mask bit set to `v`.
    pub open spec fn spec_with_f(self, v: bool) -> Cpsr {
        if v {
            Cpsr { raw: self.raw | F_BIT }
        } else {
            Cpsr { raw: self.raw & !F_BIT }
        }
    }

    /// Set or clear the FIQ mask bit.
    pub fn with_f(self, v: bool) -> (r: Cpsr)
        ensures
            r == self.spec_with_f(v),
            r.spec_f() == v,
            r.spec_mode_bits() == self.spec_mode_bits(),
            r.spec_t() == self.spec_t(),
            r.spec_i() == self.spec_i(),
    {
        let r = if v {
            Cpsr { raw: self.raw | F_BIT }
        } else {
            Cpsr { raw: self.raw & !F_BIT }
        };
        proof {
            lemma_single_bit_update(self.raw, F_BIT);
        }
        r
    }

    /// The raw value with the IRQ mask bit set to `v`.
    pub open spec fn spec_with_i(self, v: bool) -> Cpsr {
        if v {
            Cpsr { raw: self.raw | I_BIT }
        } else {
            Cpsr { raw: self.raw & !I_BIT }
        }
    }

    /// Set or clear the IRQ mask bit.
    pub fn with_i(self, v: bool) -> (r: Cpsr)
        ensures
            r == self.spec_with_i(v),
            r.spec_i() == v,
            r.spec_mode_bits() == self.spec_mode_bits(),
            r.spec_t() == self.spec_t(),
            r.spec_f() == self.spec_f(),
    {
        let r = if v {
            Cpsr { raw: self.raw | I_BIT }
        } else {
            Cpsr { raw: self.raw & !I_BIT }
        };
        proof {
            lemma_single_bit_update(self.raw, I_BIT);
        }
        r
    }

    /// The status word a mode-entry constant uses: the given mode with both
    /// interrupt sources masked and every other bit clear.
    pub fn entry_word(m: ProcessorMode) -> (r: Cpsr)
        ensures
            r.spec_mode() == Some(m),
            r.spec_i(),
            r.spec_f(),
            !r.spec_t(),
    {
        proof {
            assert(0u32 & 0x20u32 == 0u32) by (bit_vector);
        }
        Cpsr::new_with_raw_value(0).with_mode(m).with_i(true).with_f(true)
    }
}

/// Writing the five-bit field `b` into the mode bits leaves every other bit
/// of `raw` alone and makes the mode field read back as `b`.
proof fn lemma_mode_field_update(raw: u32, b: u32)
    by (bit_vector)
    requires
        b <= 0x1F,
    ensures
        ((raw & !0x1Fu32) | b) & 0x1Fu32 == b,
        ((raw & !0x1Fu32) | b) & 0x20u32 == raw & 0x20u32,
        ((raw & !0x1Fu32) | b) & 0x40u32 == raw & 0x40u32,
        ((raw & !0x1Fu32) | b) & 0x80u32 == raw & 0x80u32,
{
}

/// Setting or clearing one bit by mask `m` (a power of two below the mode
/// field's top) changes only that bit.
proof fn lemma_single_bit_update(raw: u32, m: u32)
    by (bit_vector)
    requires
        m == 0x20u32 || m == 0x40u32 || m == 0x80u32,
    ensures
        (raw | m) & m != 0,
        (raw & !m) & m == 0,
        (raw | m) & 0x1Fu32 == raw & 0x1Fu32,
        (raw & !m) & 0x1Fu32 == raw & 0x1Fu32,
        m != 0x20u32 ==> (raw | m) & 0x20u32 == raw & 0x20u32,
        m != 0x20u32 ==> (raw & !m) & 0x20u32 == raw & 0x20u32,
        m != 0x40u32 ==> (raw | m) & 0x40u32 == raw & 0x40u32,
        m != 0x40u32 ==> (raw & !m) & 0x40u32 == raw & 0x40u32,
        m != 0x80u32 ==> (raw | m) & 0x80u32 == raw & 0x80u32,
        m != 0x80u32 ==> (raw & !m) & 0x80u32 == raw & 0x80u32,
{
}

} // verus!
