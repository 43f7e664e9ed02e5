//! The named system registers: each carries its fixed five-part encoding
//! and reads or writes its value through the register-access capability.
//!
//! Bit-packed registers hold their raw 32-bit pattern and expose one
//! accessor per architecture-defined field, each stated as the exact
//! shift-and-mask over the backing word.

use vstd::prelude::*;

verus! {

use crate::sysreg::SysRegBank;
use crate::sysreg::SysRegId;

/// VBAR (Vector Base Address Register): where the vector table lives.
///
/// There is no `modify` method because this register holds a single
/// 32-bit address.
#[derive(Clone, Copy, Debug, PartialEq, Eq, Structural)]
pub struct Vbar(pub u32);

impl Vbar {
    /// The encoding of VBAR.
    pub open spec fn spec_reg_id() -> SysRegId {
        SysRegId { cp: 15, crn: 12, op1: 0, crm: 0, op2: 0 }
    }

    /// The encoding of VBAR.
    pub fn reg_id() -> (r: SysRegId)
        ensures
            r == Self::spec_reg_id(),
    {
        SysRegId { cp: 15, crn: 12, op1: 0, crm: 0, op2: 0 }
    }

    /// Read VBAR.
    pub fn read(bank: &SysRegBank) -> (r: Vbar)
        ensures
            r.0 == bank.spec_read(Self::spec_reg_id().spec_key()),
    {
        Vbar(bank.read(Self::reg_id().key()))
    }

    /// Write VBAR. The caller must supply the correctly aligned address of
    /// a valid vector table; a bad address is undefined hardware
    /// behaviour, not a reportable error.
    pub fn write(bank: &mut SysRegBank, value: Vbar)
        ensures
            final(bank).spec_read(Self::spec_reg_id().spec_key()) == value.0,
            forall|k2: u32|
                k2 != Self::spec_reg_id().spec_key() ==> final(bank).spec_read(k2) == old(
                    bank,
                ).spec_read(k2),
    {
        bank.write(Self::reg_id().key(), value.0);
    }
}

/// HVBAR (Hyp Vector Base Address Register): the vector base for the
/// hypervisor level. Only accessible at that level.
#[derive(Clone, Copy, Debug, PartialEq, Eq, Structural)]
pub struct Hvbar(pub u32);

impl Hvbar {
    /// The encoding of HVBAR.
    pub open spec fn spec_reg_id() -> SysRegId {
        SysRegId { cp: 15, crn: 12, op1: 4, crm: 0, op2: 0 }
    }

    /// The encoding of HVBAR.
    pub fn reg_id() -> (r: SysRegId)
        ensures
            r == Self::spec_reg_id(),
    {
        SysRegId { cp: 15, crn: 12, op1: 4, crm: 0, op2: 0 }
    }

    /// Read HVBAR.
    pub fn read(bank: &SysRegBank) -> (r: Hvbar)
        ensures
            r.0 == bank.spec_read(Self::spec_reg_id().spec_key()),
    {
        Hvbar(bank.read(Self::reg_id().key()))
    }

    /// Write HVBAR. The caller must supply the correctly aligned address
    /// of a valid vector table.
    pub fn write(bank: &mut SysRegBank, value: Hvbar)
        ensures
            final(bank).spec_read(Self::spec_reg_id().spec_key()) == value.0,
            forall|k2: u32|
                k2 != Self::spec_reg_id().spec_key() ==> final(bank).spec_read(k2) == old(
                    bank,
                ).spec_read(k2),
    {
        bank.write(Self::reg_id().key(), value.0);
    }
}

/// RVBAR (Reset Vector Base Address Register). Read-only.
#[derive(Clone, Copy, Debug, PartialEq, Eq, Structural)]
pub struct Rvbar(pub u32);

impl Rvbar {
    /// The encoding of RVBAR.
    pub open spec fn spec_reg_id() -> SysRegId {
        SysRegId { cp: 15, crn: 12, op1: 0, crm: 0, op2: 1 }
    }

    /// The encoding of RVBAR.
    pub fn reg_id() -> (r: SysRegId)
        ensures
            r == Self::spec_reg_id(),
    {
        SysRegId { cp: 15, crn: 12, op1: 0, crm: 0, op2: 1 }
    }

    /// Read RVBAR.
    pub fn read(bank: &SysRegBank) -> (r: Rvbar)
        ensures
            r.0 == bank.spec_read(Self::spec_reg_id().spec_key()),
    {
        Rvbar(bank.read(Self::reg_id().key()))
    }
}

/// REVIDR (Revision ID Register). Read-only.
#[derive(Clone, Copy, Debug, PartialEq, Eq, Structural)]
pub struct Revidr(pub u32);

impl Revidr {
    /// The encoding of REVIDR.
    pub open spec fn spec_reg_id() -> SysRegId {
        SysRegId { cp: 15, crn: 0, op1: 0, crm: 0, op2: 6 }
    }

    /// The encoding of REVIDR.
    pub fn reg_id() -> (r: SysRegId)
        ensures
            r == Self::spec_reg_id(),
    {
        SysRegId { cp: 15, crn: 0, op1: 0, crm: 0, op2: 6 }
    }

    /// Read REVIDR.
    pub fn read(bank: &SysRegBank) -> (r: Revidr)
        ensures
            r.0 == bank.spec_read(Self::spec_reg_id().spec_key()),
    {
        Revidr(bank.read(Self::reg_id().key()))
    }
}

/// ID_ISAR1 (Instruction Set Attribute Register 1). Read-only.
#[derive(Clone, Copy, Debug, PartialEq, Eq, Structural)]
pub struct IdIsar1(pub u32);

impl IdIsar1 {
    /// The encoding of ID_ISAR1.
    pub open spec fn spec_reg_id() -> SysRegId {
        SysRegId { cp: 15, crn: 0, op1: 0, crm: 2, op2: 1 }
    }

    /// The encoding of ID_ISAR1.
    pub fn reg_id() -> (r: SysRegId)
        ensures
            r == Self::spec_reg_id(),
    {
        SysRegId { cp: 15, crn: 0, op1: 0, crm: 2, op2: 1 }
    }

    /// Read ID_ISAR1.
    pub fn read(bank: &SysRegBank) -> (r: IdIsar1)
        ensures
            r.0 == bank.spec_read(Self::spec_reg_id().spec_key()),
    {
        IdIsar1(bank.read(Self::reg_id().key()))
    }
}

/// ID_MMFR3 (Memory Model Feature Register 3). Read-only.
#[derive(Clone, Copy, Debug, PartialEq, Eq, Structural)]
pub struct IdMmfr3(pub u32);

impl IdMmfr3 {
    /// The encoding of ID_MMFR3.
    pub open spec fn spec_reg_id() -> SysRegId {
        SysRegId { cp: 15, crn: 0, op1: 0, crm: 1, op2: 7 }
    }

    /// The encoding of ID_MMFR3.
    pub fn reg_id() -> (r: SysRegId)
        ensures
            r == Self::spec_reg_id(),
    {
        SysRegId { cp: 15, crn: 0, op1: 0, crm: 1, op2: 7 }
    }

    /// Read ID_MMFR3.
    pub fn read(bank: &SysRegBank) -> (r: IdMmfr3)
        ensures
            r.0 == bank.spec_read(Self::spec_reg_id().spec_key()),
    {
        IdMmfr3(bank.read(Self::reg_id().key()))
    }
}

/// DRBAR (Data Region Base Address Register). The region selection
/// register controls which region a read or write touches.
#[derive(Clone, Copy, Debug, PartialEq, Eq, Structural)]
pub struct Drbar(pub u32);

impl Drbar {
    /// The encoding of DRBAR.
    pub open spec fn spec_reg_id() -> SysRegId {
        SysRegId { cp: 15, crn: 6, op1: 0, crm: 1, op2: 0 }
    }

    /// The encoding of DRBAR.
    pub fn reg_id() -> (r: SysRegId)
        ensures
            r == Self::spec_reg_id(),
    {
        SysRegId { cp: 15, crn: 6, op1: 0, crm: 1, op2: 0 }
    }

    /// Read DRBAR.
    pub fn read(bank: &SysRegBank) -> (r: Drbar)
        ensures
            r.0 == bank.spec_read(Self::spec_reg_id().spec_key()),
    {
        Drbar(bank.read(Self::reg_id().key()))
    }

    /// Write DRBAR.
    pub fn write(bank: &mut SysRegBank, value: Drbar)
        ensures
            final(bank).spec_read(Self::spec_reg_id().spec_key()) == value.0,
            forall|k2: u32|
                k2 != Self::spec_reg_id().spec_key() ==> final(bank).spec_read(k2) == old(
                    bank,
                ).spec_read(k2),
    {
        bank.write(Self::reg_id().key(), value.0);
    }
}

/// HPRSELR (Hyp Protection Region Selection Register): controls which
/// region the hypervisor-level base and limit registers address.
#[derive(Clone, Copy, Debug, PartialEq, Eq, Structural)]
pub struct Hprselr(pub u32);

impl Hprselr {
    /// The encoding of HPRSELR.
    pub open spec fn spec_reg_id() -> SysRegId {
        SysRegId { cp: 15, crn: 6, op1: 4, crm: 2, op2: 1 }
    }

    /// The encoding of HPRSELR.
    pub fn reg_id() -> (r: SysRegId)
        ensures
            r == Self::spec_reg_id(),
    {
        SysRegId { cp: 15, crn: 6, op1: 4, crm: 2, op2: 1 }
    }

    /// Read HPRSELR.
    pub fn read(bank: &SysRegBank) -> (r: Hprselr)
        ensures
            r.0 == bank.spec_read(Self::spec_reg_id().spec_key()),
    {
        Hprselr(bank.read(Self::reg_id().key()))
    }

    /// Write HPRSELR.
    pub fn write(bank: &mut SysRegBank, value: Hprselr)
        ensures
            final(bank).spec_read(Self::spec_reg_id().spec_key()) == value.0,
            forall|k2: u32|
                k2 != Self::spec_reg_id().spec_key() ==> final(bank).spec_read(k2) == old(
                    bank,
                ).spec_read(k2),
    {
        bank.write(Self::reg_id().key(), value.0);
    }
}

/// PRBAR15 (Protection Region Base Address Register 15).
#[derive(Clone, Copy, Debug, PartialEq, Eq, Structural)]
pub struct Prbar15(pub u32);

impl Prbar15 {
    /// The encoding of PRBAR15.
    pub open spec fn spec_reg_id() -> SysRegId {
        SysRegId { cp: 15, crn: 6, op1: 0, crm: 15, op2: 4 }
    }

    /// The encoding of PRBAR15.
    pub fn reg_id() -> (r: SysRegId)
        ensures
            r == Self::spec_reg_id(),
    {
        SysRegId { cp: 15, crn: 6, op1: 0, crm: 15, op2: 4 }
    }

    /// Read PRBAR15.
    pub fn read(bank: &SysRegBank) -> (r: Prbar15)
        ensures
            r.0 == bank.spec_read(Self::spec_reg_id().spec_key()),
    {
        Prbar15(bank.read(Self::reg_id().key()))
    }

    /// Write PRBAR15. The caller must ensure the value is appropriate for
    /// this register.
    pub fn write(bank: &mut SysRegBank, value: Prbar15)
        ensures
            final(bank).spec_read(Self::spec_reg_id().spec_key()) == value.0,
            forall|k2: u32|
                k2 != Self::spec_reg_id().spec_key() ==> final(bank).spec_read(k2) == old(
                    bank,
                ).spec_read(k2),
    {
        bank.write(Self::reg_id().key(), value.0);
    }
}

/// TLBIALL (TLB Invalidate All): a write-only maintenance operation; the
/// written value is ignored by hardware, so the write commits zero.
#[derive(Clone, Copy, Debug, PartialEq, Eq, Structural)]
pub struct TlbIAll;

impl TlbIAll {
    /// The encoding of TLBIALL.
    pub open spec fn spec_reg_id() -> SysRegId {
        SysRegId { cp: 15, crn: 8, op1: 0, crm: 7, op2: 0 }
    }

    /// The encoding of TLBIALL.
    pub fn reg_id() -> (r: SysRegId)
        ensures
            r == Self::spec_reg_id(),
    {
        SysRegId { cp: 15, crn: 8, op1: 0, crm: 7, op2: 0 }
    }

    /// Issue the invalidate-all operation.
    pub fn write(bank: &mut SysRegBank)
        ensures
            final(bank).entries@ == old(bank).entries@.push(
                (Self::spec_reg_id().spec_key(), 0u32),
            ),
    {
        bank.write(Self::reg_id().key(), 0);
    }
}

/// BPIALL (Branch Predictor Invalidate All): a write-only maintenance
/// operation; the written value is ignored by hardware.
#[derive(Clone, Copy, Debug, PartialEq, Eq, Structural)]
pub struct BpIAll;

impl BpIAll {
    /// The encoding of BPIALL.
    pub open spec fn spec_reg_id() -> SysRegId {
        SysRegId { cp: 15, crn: 7, op1: 0, crm: 5, op2: 6 }
    }

    /// The encoding of BPIALL.
    pub fn reg_id() -> (r: SysRegId)
        ensures
            r == Self::spec_reg_id(),
    {
        SysRegId { cp: 15, crn: 7, op1: 0, crm: 5, op2: 6 }
    }

    /// Issue the invalidate-all operation.
    pub fn write(bank: &mut SysRegBank)
        ensures
            final(bank).entries@ == old(bank).entries@.push(
                (Self::spec_reg_id().spec_key(), 0u32),
            ),
    {
        bank.write(Self::reg_id().key(), 0);
    }
}

/// Which cache the size-selection register addresses.
#[derive(Clone, Copy, Debug, PartialEq, Eq, Structural)]
pub enum CacheType {
    /// A data or unified cache (bit value 0).
    DataOrUnified,
    /// An instruction cache (bit value 1).
    Instruction,
}

impl CacheType {
    /// The selection bit for this cache type.
    pub open spec fn spec_bit(self) -> u32 {
        match self {
            CacheType::DataOrUnified => 0,
            CacheType::Instruction => 1,
        }
    }

    /// The selection bit for this cache type.
    pub fn bit(self) -> (r: u32)
        ensures
            r == self.spec_bit(),
    {
        match self {
            CacheType::DataOrUnified => 0,
            CacheType::Instruction => 1,
        }
    }

    /// Decode a selection bit.
    pub open spec fn spec_from_bit(b: u32) -> CacheType {
        if b == 0 {
            CacheType::DataOrUnified
        } else {
            CacheType::Instruction
        }
    }

    /// Decode a selection bit.
    pub fn from_bit(b: u32) -> (r: CacheType)
        ensures
            r == Self::spec_from_bit(b),
    {
        if b == 0 {
            CacheType::DataOrUnified
        } else {
            CacheType::Instruction
        }
    }
}

/// CSSELR (Cache Size Selection Register): selects which cache CCSIDR
/// describes. The level stands in bits 1..=3 (zero names the first
/// level), the cache type in bit 0.
#[derive(Clone, Copy, Debug, PartialEq, Eq, Structural)]
pub struct Csselr {
    /// The raw 32-bit value.
    pub raw: u32,
}

impl Csselr {
    /// Wrap a raw value.
    pub fn new_with_raw_value(raw: u32) -> (r: Csselr)
        ensures
            r.raw == raw,
    {
        Csselr { raw }
    }

    /// The raw value.
    pub fn raw_value(self) -> (r: u32)
        ensures
            r == self.raw,
    {
        self.raw
    }

    /// Compose a selection: `level` zero names the first cache level.
    pub fn new(level: u32, cache_type: CacheType) -> (r: Csselr)
        requires
            level < 8,
        ensures
            r.raw == level * 2 + cache_type.spec_bit(),
    {
        Csselr { raw: level * 2 + cache_type.bit() }
    }

    /// The selected cache level (bits 1..=3); zero names the first level.
    pub open spec fn spec_level(self) -> u32 {
        (self.raw >> 1u32) & 0x7
    }

    /// The selected cache level.
    pub fn level(self) -> (r: u32)
        ensures
            r == self.spec_level(),
    {
        (self.raw >> 1u32) & 0x7
    }

    /// The selected cache type (bit 0).
    pub open spec fn spec_cache_type(self) -> CacheType {
        CacheType::spec_from_bit(self.raw & 1)
    }

    /// The selected cache type.
    pub fn cache_type(self) -> (r: CacheType)
        ensures
            r == self.spec_cache_type(),
    {
        CacheType::from_bit(self.raw & 1)
    }

    /// The encoding of CSSELR.
    pub open spec fn spec_reg_id() -> SysRegId {
        SysRegId { cp: 15, crn: 0, op1: 2, crm: 0, op2: 0 }
    }

    /// The encoding of CSSELR.
    pub fn reg_id() -> (r: SysRegId)
        ensures
            r == Self::spec_reg_id(),
    {
        SysRegId { cp: 15, crn: 0, op1: 2, crm: 0, op2: 0 }
    }

    /// Read CSSELR.
    pub fn read(bank: &SysRegBank) -> (r: Csselr)
        ensures
            r.raw == bank.spec_read(Self::spec_reg_id().spec_key()),
    {
        Csselr { raw: bank.read(Self::reg_id().key()) }
    }

    /// Write CSSELR, selecting what CCSIDR describes. The caller must
    /// ensure the selected cache exists.
    pub fn write(bank: &mut SysRegBank, value: Csselr)
        ensures
            final(bank).spec_read(Self::spec_reg_id().spec_key()) == value.raw,
            forall|k2: u32|
                k2 != Self::spec_reg_id().spec_key() ==> final(bank).spec_read(k2) == old(
                    bank,
                ).spec_read(k2),
    {
        bank.write(Self::reg_id().key(), value.raw);
    }
}

/// CCSIDR (Current Cache Size ID Register): describes the cache CSSELR
/// selects. Read-only.
#[derive(Clone, Copy, Debug, PartialEq, Eq, Structural)]
pub struct Ccsidr {
    /// The raw 32-bit value.
    pub raw: u32,
}

impl Ccsidr {
    /// Wrap a raw value.
    pub fn new_with_raw_value(raw: u32) -> (r: Ccsidr)
        ensures
            r.raw == raw,
    {
        Ccsidr { raw }
    }

    /// The raw value.
    pub fn raw_value(self) -> (r: u32)
        ensures
            r == self.raw,
    {
        self.raw
    }

    /// Write-through support (bit 31).
    pub fn write_through(self) -> (r: bool)
        ensures
            r == (self.raw & 0x8000_0000u32 != 0),
    {
        self.raw & 0x8000_0000 != 0
    }

    /// Write-back support (bit 30).
    pub fn write_back(self) -> (r: bool)
        ensures
            r == (self.raw & 0x4000_0000u32 != 0),
    {
        self.raw & 0x4000_0000 != 0
    }

    /// Read-allocation support (bit 29).
    pub fn read_alloc(self) -> (r: bool)
        ensures
            r == (self.raw & 0x2000_0000u32 != 0),
    {
        self.raw & 0x2000_0000 != 0
    }

    /// Write-allocation support (bit 28).
    pub fn write_alloc(self) -> (r: bool)
        ensures
            r == (self.raw & 0x1000_0000u32 != 0),
    {
        self.raw & 0x1000_0000 != 0
    }

    /// Number of sets minus one (bits 13..=27).
    pub fn num_sets(self) -> (r: u32)
        ensures
            r == (self.raw >> 13u32) & 0x7FFF,
    {
        (self.raw >> 13u32) & 0x7FFF
    }

    /// Associativity minus one (bits 3..=12).
    pub fn associativity(self) -> (r: u32)
        ensures
            r == (self.raw >> 3u32) & 0x3FF,
    {
        (self.raw >> 3u32) & 0x3FF
    }

    /// Log2 of the line length in words, minus two (bits 0..=2).
    pub fn line_size(self) -> (r: u32)
        ensures
            r == self.raw & 0x7,
    {
        self.raw & 0x7
    }

    /// The encoding of CCSIDR.
    pub open spec fn spec_reg_id() -> SysRegId {
        SysRegId { cp: 15, crn: 0, op1: 1, crm: 0, op2: 0 }
    }

    /// The encoding of CCSIDR.
    pub fn reg_id() -> (r: SysRegId)
        ensures
            r == Self::spec_reg_id(),
    {
        SysRegId { cp: 15, crn: 0, op1: 1, crm: 0, op2: 0 }
    }

    /// Read CCSIDR.
    pub fn read(bank: &SysRegBank) -> (r: Ccsidr)
        ensures
            r.raw == bank.spec_read(Self::spec_reg_id().spec_key()),
    {
        Ccsidr { raw: bank.read(Self::reg_id().key()) }
    }
}

/// HMPUIR (Hyp MPU Type Register): how many hypervisor-level protection
/// regions are implemented. Read-only.
#[derive(Clone, Copy, Debug, PartialEq, Eq, Structural)]
pub struct Hmpuir {
    /// The raw 32-bit value.
    pub raw: u32,
}

impl Hmpuir {
    /// Wrap a raw value.
    pub fn new_with_raw_value(raw: u32) -> (r: Hmpuir)
        ensures
            r.raw == raw,
    {
        Hmpuir { raw }
    }

    /// The number of protection regions implemented (bits 0..=7).
    pub fn region(self) -> (r: u32)
        ensures
            r == self.raw & 0xFF,
    {
        self.raw & 0xFF
    }

    /// The encoding of HMPUIR.
    pub open spec fn spec_reg_id() -> SysRegId {
        SysRegId { cp: 15, crn: 0, op1: 4, crm: 0, op2: 4 }
    }

    /// The encoding of HMPUIR.
    pub fn reg_id() -> (r: SysRegId)
        ensures
            r == Self::spec_reg_id(),
    {
        SysRegId { cp: 15, crn: 0, op1: 4, crm: 0, op2: 4 }
    }

    /// Read HMPUIR.
    pub fn read(bank: &SysRegBank) -> (r: Hmpuir)
        ensures
            r.raw == bank.spec_read(Self::spec_reg_id().spec_key()),
    {
        Hmpuir { raw: bank.read(Self::reg_id().key()) }
    }
}

/// HSCTLR (Hyp System Control Register).
#[derive(Clone, Copy, Debug, PartialEq, Eq, Structural)]
pub struct Hsctlr {
    /// The raw 32-bit value.
    pub raw: u32,
}

impl Hsctlr {
    /// Wrap a raw value.
    pub fn new_with_raw_value(raw: u32) -> (r: Hsctlr)
        ensures
            r.raw == raw,
    {
        Hsctlr { raw }
    }

    /// The raw value.
    pub fn raw_value(self) -> (r: u32)
        ensures
            r == self.raw,
    {
        self.raw
    }

    /// T32 exception enable (bit 30): whether exceptions to the hypervisor
    /// level are taken in Thumb state.
    pub fn te(self) -> (r: bool)
        ensures
            r == (self.raw & 0x4000_0000u32 != 0),
    {
        self.raw & 0x4000_0000 != 0
    }

    /// Exception endianness (bit 25).
    pub fn ee(self) -> (r: bool)
        ensures
            r == (self.raw & 0x0200_0000u32 != 0),
    {
        self.raw & 0x0200_0000 != 0
    }

    /// Fast interrupts enable (bit 21).
    pub fn fi(self) -> (r: bool)
        ensures
            r == (self.raw & 0x0020_0000u32 != 0),
    {
        self.raw & 0x0020_0000 != 0
    }

    /// Write permission implies execute-never (bit 19).
    pub fn wxn(self) -> (r: bool)
        ensures
            r == (self.raw & 0x0008_0000u32 != 0),
    {
        self.raw & 0x0008_0000 != 0
    }

    /// Background-region enable for the hypervisor level (bit 17).
    pub fn br(self) -> (r: bool)
        ensures
            r == (self.raw & 0x0002_0000u32 != 0),
    {
        self.raw & 0x0002_0000 != 0
    }

    /// Instruction-access cacheability (bit 12).
    pub fn i(self) -> (r: bool)
        ensures
            r == (self.raw & 0x0000_1000u32 != 0),
    {
        self.raw & 0x0000_1000 != 0
    }

    /// SETEND instruction disable (bit 8).
    pub fn sed(self) -> (r: bool)
        ensures
            r == (self.raw & 0x0000_0100u32 != 0),
    {
        self.raw & 0x0000_0100 != 0
    }

    /// IT instruction disable (bit 7).
    pub fn itd(self) -> (r: bool)
        ensures
            r == (self.raw & 0x0000_0080u32 != 0),
    {
        self.raw & 0x0000_0080 != 0
    }

    /// System-instruction memory-barrier enable (bit 5).
    pub fn cp15ben(self) -> (r: bool)
        ensures
            r == (self.raw & 0x0000_0020u32 != 0),
    {
        self.raw & 0x0000_0020 != 0
    }

    /// Data-access cacheability (bit 2).
    pub fn c(self) -> (r: bool)
        ensures
            r == (self.raw & 0x0000_0004u32 != 0),
    {
        self.raw & 0x0000_0004 != 0
    }

    /// Alignment-check enable (bit 1).
    pub fn a(self) -> (r: bool)
        ensures
            r == (self.raw & 0x0000_0002u32 != 0),
    {
        self.raw & 0x0000_0002 != 0
    }

    /// Protection-unit enable for the hypervisor level (bit 0).
    pub fn m(self) -> (r: bool)
        ensures
            r == (self.raw & 0x0000_0001u32 != 0),
    {
        self.raw & 0x0000_0001 != 0
    }

    /// The encoding of HSCTLR.
    pub open spec fn spec_reg_id() -> SysRegId {
        SysRegId { cp: 15, crn: 1, op1: 4, crm: 0, op2: 0 }
    }

    /// The encoding of HSCTLR.
    pub fn reg_id() -> (r: SysRegId)
        ensures
            r == Self::spec_reg_id(),
    {
        SysRegId { cp: 15, crn: 1, op1: 4, crm: 0, op2: 0 }
    }

    /// Read HSCTLR.
    pub fn read(bank: &SysRegBank) -> (r: Hsctlr)
        ensures
            r.raw == bank.spec_read(Self::spec_reg_id().spec_key()),
    {
        Hsctlr { raw: bank.read(Self::reg_id().key()) }
    }

    /// Write HSCTLR. A write that enables the protection unit or changes
    /// cacheability must be bracketed by the architecture's barriers; that
    /// is the caller's to uphold.
    pub fn write(bank: &mut SysRegBank, value: Hsctlr)
        ensures
            final(bank).entries@ == old(bank).entries@.push(
                (Self::spec_reg_id().spec_key(), value.raw),
            ),
            final(bank).spec_read(Self::spec_reg_id().spec_key()) == value.raw,
            forall|k2: u32|
                k2 != Self::spec_reg_id().spec_key() ==> final(bank).spec_read(k2) == old(
                    bank,
                ).spec_read(k2),
    {
        bank.write(Self::reg_id().key(), value.raw);
    }

    /// Read, apply a transformation, write back. Not atomic with respect
    /// to interruption: the written value is computed from the value read
    /// before, so an interrupt that modifies the register in between is
    /// lost — masking around the call is the caller's responsibility.
    pub fn modify<F: Fn(Hsctlr) -> Hsctlr>(bank: &mut SysRegBank, f: F)
        requires
            forall|h: Hsctlr| #[trigger] f.requires((h,)),
        ensures
            exists|h1: Hsctlr|
                #[trigger] f.ensures(
                    (Hsctlr { raw: old(bank).spec_read(Self::spec_reg_id().spec_key()) },),
                    h1,
                ) && final(bank).entries@ == old(bank).entries@.push(
                    (Self::spec_reg_id().spec_key(), h1.raw),
                ),
    {
        let v = Self::read(bank);
        let w = f(v);
        Self::write(bank, w);
        proof {
            assert(v == Hsctlr { raw: old(bank).spec_read(Self::spec_reg_id().spec_key()) });
            assert(f.ensures(
                (Hsctlr { raw: old(bank).spec_read(Self::spec_reg_id().spec_key()) },),
                w,
            ));
        }
    }
}

/// Shareability of a hypervisor-level protection region.
#[derive(Clone, Copy, Debug, PartialEq, Eq, Structural)]
pub enum Shareability {
    /// Non-shareable (0b00).
    NonShareable,
    /// Reserved (0b01).
    Reserved,
    /// Outer-shareable (0b10).
    OuterShareable,
    /// Inner-shareable (0b11).
    InnerShareable,
}

impl Shareability {
    /// The two-bit encoding of this shareability.
    pub open spec fn spec_bits(self) -> u32 {
        match self {
            Shareability::NonShareable => 0,
            Shareability::Reserved => 1,
            Shareability::OuterShareable => 2,
            Shareability::InnerShareable => 3,
        }
    }

    /// The two-bit encoding of this shareability.
    pub fn bits(self) -> (r: u32)
        ensures
            r == self.spec_bits(),
    {
        match self {
            Shareability::NonShareable => 0,
            Shareability::Reserved => 1,
            Shareability::OuterShareable => 2,
            Shareability::InnerShareable => 3,
        }
    }

    /// Decode a two-bit encoding (the field is exhaustive).
    pub open spec fn spec_from_bits(b: u32) -> Shareability {
        if b == 0 {
            Shareability::NonShareable
        } else if b == 1 {
            Shareability::Reserved
        } else if b == 2 {
            Shareability::OuterShareable
        } else {
            Shareability::InnerShareable
        }
    }

    /// Decode a two-bit encoding.
    pub fn from_bits(b: u32) -> (r: Shareability)
        requires
            b < 4,
        ensures
            r == Self::spec_from_bits(b),
            r.spec_bits() == b,
    {
        if b == 0 {
            Shareability::NonShareable
        } else if b == 1 {
            Shareability::Reserved
        } else if b == 2 {
            Shareability::OuterShareable
        } else {
            Shareability::InnerShareable
        }
    }
}

/// Access permissions of a hypervisor-level protection region.
#[derive(Clone, Copy, Debug, PartialEq, Eq, Structural)]
pub enum AccessPerms {
    /// Read-write at the hypervisor level, no access below (0b00).
    ReadWriteNoEL10,
    /// Read-write at every level (0b01).
    ReadWrite,
    /// Read-only at the hypervisor level, no access below (0b10).
    ReadOnlyNoEL10,
    /// Read-only at every level (0b11).
    ReadOnly,
}

impl AccessPerms {
    /// The two-bit encoding of these permissions.
    pub open spec fn spec_bits(self) -> u32 {
        match self {
            AccessPerms::ReadWriteNoEL10 => 0,
            AccessPerms::ReadWrite => 1,
            AccessPerms::ReadOnlyNoEL10 => 2,
            AccessPerms::ReadOnly => 3,
        }
    }

    /// The two-bit encoding of these permissions.
    pub fn bits(self) -> (r: u32)
        ensures
            r == self.spec_bits(),
    {
        match self {
            AccessPerms::ReadWriteNoEL10 => 0,
            AccessPerms::ReadWrite => 1,
            AccessPerms::ReadOnlyNoEL10 => 2,
            AccessPerms::ReadOnly => 3,
        }
    }

    /// Decode a two-bit encoding (the field is exhaustive).
    pub open spec fn spec_from_bits(b: u32) -> AccessPerms {
        if b == 0 {
            AccessPerms::ReadWriteNoEL10
        } else if b == 1 {
            AccessPerms::ReadWrite
        } else if b == 2 {
            AccessPerms::ReadOnlyNoEL10
        } else {
            AccessPerms::ReadOnly
        }
    }

    /// Decode a two-bit encoding.
    pub fn from_bits(b: u32) -> (r: AccessPerms)
        requires
            b < 4,
        ensures
            r == Self::spec_from_bits(b),
            r.spec_bits() == b,
    {
        if b == 0 {
            AccessPerms::ReadWriteNoEL10
        } else if b == 1 {
            AccessPerms::ReadWrite
        } else if b == 2 {
            AccessPerms::ReadOnlyNoEL10
        } else {
            AccessPerms::ReadOnly
        }
    }
}

/// HPRBAR (Hyp Protection Region Base Address Register): the base address
/// in bits 6..=31, shareability in bits 3..=4, access permissions in bits
/// 1..=2, execute-never in bit 0. HPRSELR selects which region this
/// addresses.
#[derive(Clone, Copy, Debug, PartialEq, Eq, Structural)]
pub struct Hprbar {
    /// The raw 32-bit value.
    pub raw: u32,
}

impl Hprbar {
    /// Wrap a raw value.
    pub fn new_with_raw_value(raw: u32) -> (r: Hprbar)
        ensures
            r.raw == raw,
    {
        Hprbar { raw }
    }

    /// The raw value.
    pub fn raw_value(self) -> (r: u32)
        ensures
            r == self.raw,
    {
        self.raw
    }

    /// The region base address's top 26 bits (bits 6..=31).
    pub fn base(self) -> (r: u32)
        ensures
            r == self.raw >> 6u32,
    {
        self.raw >> 6u32
    }

    /// The region's shareability (bits 3..=4).
    pub fn shareability(self) -> (r: Shareability)
        ensures
            r == Shareability::spec_from_bits((self.raw >> 3u32) & 0x3),
    {
        proof {
            let x = self.raw;
            assert((x >> 3u32) & 0x3 < 4u32) by (bit_vector);
        }
        Shareability::from_bits((self.raw >> 3u32) & 0x3)
    }

    /// The region's access permissions (bits 1..=2).
    pub fn access_perms(self) -> (r: AccessPerms)
        ensures
            r == AccessPerms::spec_from_bits((self.raw >> 1u32) & 0x3),
    {
        proof {
            let x = self.raw;
            assert((x >> 1u32) & 0x3 < 4u32) by (bit_vector);
        }
        AccessPerms::from_bits((self.raw >> 1u32) & 0x3)
    }

    /// Execute-never (bit 0).
    pub fn nx(self) -> (r: bool)
        ensures
            r == (self.raw & 1u32 != 0),
    {
        self.raw & 1 != 0
    }

    /// The encoding of HPRBAR.
    pub open spec fn spec_reg_id() -> SysRegId {
        SysRegId { cp: 15, crn: 6, op1: 4, crm: 3, op2: 0 }
    }

    /// The encoding of HPRBAR.
    pub fn reg_id() -> (r: SysRegId)
        ensures
            r == Self::spec_reg_id(),
    {
        SysRegId { cp: 15, crn: 6, op1: 4, crm: 3, op2: 0 }
    }

    /// Read HPRBAR for the region HPRSELR selects.
    pub fn read(bank: &SysRegBank) -> (r: Hprbar)
        ensures
            r.raw == bank.spec_read(Self::spec_reg_id().spec_key()),
    {
        Hprbar { raw: bank.read(Self::reg_id().key()) }
    }

    /// Write HPRBAR for the region HPRSELR selects.
    pub fn write(bank: &mut SysRegBank, value: Hprbar)
        ensures
            final(bank).spec_read(Self::spec_reg_id().spec_key()) == value.raw,
            forall|k2: u32|
                k2 != Self::spec_reg_id().spec_key() ==> final(bank).spec_read(k2) == old(
                    bank,
                ).spec_read(k2),
    {
        bank.write(Self::reg_id().key(), value.raw);
    }
}

/// HPRLAR (Hyp Protection Region Limit Address Register): the region
/// limit in bits 6..=31, the memory-attribute index in bits 1..=3, the
/// enable in bit 0. HPRSELR selects which region this addresses.
#[derive(Clone, Copy, Debug, PartialEq, Eq, Structural)]
pub struct Hprlar {
    /// The raw 32-bit value.
    pub raw: u32,
}

impl Hprlar {
    /// Wrap a raw value.
    pub fn new_with_raw_value(raw: u32) -> (r: Hprlar)
        ensures
            r.raw == raw,
    {
        Hprlar { raw }
    }

    /// The raw value.
    pub fn raw_value(self) -> (r: u32)
        ensures
            r == self.raw,
    {
        self.raw
    }

    /// The region limit's top 26 bits (bits 6..=31).
    pub fn limit(self) -> (r: u32)
        ensures
            r == self.raw >> 6u32,
    {
        self.raw >> 6u32
    }

    /// Which memory-attribute slot the region uses (bits 1..=3).
    pub fn mair(self) -> (r: u32)
        ensures
            r == (self.raw >> 1u32) & 0x7,
    {
        (self.raw >> 1u32) & 0x7
    }

    /// Whether the region is enabled (bit 0).
    pub fn enabled(self) -> (r: bool)
        ensures
            r == (self.raw & 1u32 != 0),
    {
        self.raw & 1 != 0
    }

    /// The encoding of HPRLAR.
    pub open spec fn spec_reg_id() -> SysRegId {
        SysRegId { cp: 15, crn: 6, op1: 4, crm: 3, op2: 1 }
    }

    /// The encoding of HPRLAR.
    pub fn reg_id() -> (r: SysRegId)
        ensures
            r == Self::spec_reg_id(),
    {
        SysRegId { cp: 15, crn: 6, op1: 4, crm: 3, op2: 1 }
    }

    /// Read HPRLAR for the region HPRSELR selects.
    pub fn read(bank: &SysRegBank) -> (r: Hprlar)
        ensures
            r.raw == bank.spec_read(Self::spec_reg_id().spec_key()),
    {
        Hprlar { raw: bank.read(Self::reg_id().key()) }
    }

    /// Write HPRLAR for the region HPRSELR selects.
    pub fn write(bank: &mut SysRegBank, value: Hprlar)
        ensures
            final(bank).spec_read(Self::spec_reg_id().spec_key()) == value.raw,
            forall|k2: u32|
                k2 != Self::spec_reg_id().spec_key() ==> final(bank).spec_read(k2) == old(
                    bank,
                ).spec_read(k2),
    {
        bank.write(Self::reg_id().key(), value.raw);
    }
}

} // verus!
