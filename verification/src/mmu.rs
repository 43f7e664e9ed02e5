//! Level-one MMU section descriptors: access-permission encodings, memory
//! region attributes, and the bit layout of a one-megabyte section entry.
//!
//! A section entry packs, from the top: the section base address (bits
//! 20..=31), the non-global bit (17), the shareable bit (16), the
//! access-permission extension bit (15), the type-extension bits
//! (12..=14), the access-permission bits (10..=11), the
//! implementation-defined bit (9), the domain (5..=8), execute-never (4),
//! the cacheable and bufferable bits (3 and 2), and the entry type
//! (0..=1).

use vstd::prelude::*;

verus! {

/// A raw entry whose type bits do not name a section, returned where a
/// section was required.
#[derive(Clone, Copy, Debug, PartialEq, Eq, Structural)]
pub struct InvalidL1EntryType(pub L1EntryType);

/// The three access-permission bits of a section entry (the extension bit
/// and the two low bits), as the architecture's closed value set.
#[derive(Clone, Copy, Debug, PartialEq, Eq, Structural)]
pub enum AccessPermissions {
    /// All access faults (0b000).
    PermissionFault,
    /// Privileged access only (0b001).
    PrivilegedOnly,
    /// User writes fault (0b010).
    NoUserWrite,
    /// Full access (0b011).
    FullAccess,
    /// Reserved (0b100).
    _Reserved1,
    /// Privileged read-only (0b101).
    PrivilegedReadOnly,
    /// Read-only (0b110).
    ReadOnly,
    /// Reserved (0b111).
    _Reserved2,
}

impl AccessPermissions {
    /// The three-bit encoding of this permission set.
    pub open spec fn spec_bits(self) -> u32 {
        match self {
            AccessPermissions::PermissionFault => 0,
            AccessPermissions::PrivilegedOnly => 1,
            AccessPermissions::NoUserWrite => 2,
            AccessPermissions::FullAccess => 3,
            AccessPermissions::_Reserved1 => 4,
            AccessPermissions::PrivilegedReadOnly => 5,
            AccessPermissions::ReadOnly => 6,
            AccessPermissions::_Reserved2 => 7,
        }
    }

    /// The three-bit encoding of this permission set.
    pub fn bits(self) -> (r: u32)
        ensures
            r == self.spec_bits(),
            r < 8,
    {
        match self {
            AccessPermissions::PermissionFault => 0,
            AccessPermissions::PrivilegedOnly => 1,
            AccessPermissions::NoUserWrite => 2,
            AccessPermissions::FullAccess => 3,
            AccessPermissions::_Reserved1 => 4,
            AccessPermissions::PrivilegedReadOnly => 5,
            AccessPermissions::ReadOnly => 6,
            AccessPermissions::_Reserved2 => 7,
        }
    }

    /// Decode a three-bit encoding (the field is exhaustive).
    pub open spec fn spec_from_bits(b: u32) -> AccessPermissions {
        if b == 0 {
            AccessPermissions::PermissionFault
        } else if b == 1 {
            AccessPermissions::PrivilegedOnly
        } else if b == 2 {
            AccessPermissions::NoUserWrite
        } else if b == 3 {
            AccessPermissions::FullAccess
        } else if b == 4 {
            AccessPermissions::_Reserved1
        } else if b == 5 {
            AccessPermissions::PrivilegedReadOnly
        } else if b == 6 {
            AccessPermissions::ReadOnly
        } else {
            AccessPermissions::_Reserved2
        }
    }

    /// Decode a three-bit encoding.
    pub fn from_bits(b: u32) -> (r: AccessPermissions)
        requires
            b < 8,
        ensures
            r == Self::spec_from_bits(b),
            r.spec_bits() == b,
    {
        if b == 0 {
            AccessPermissions::PermissionFault
        } else if b == 1 {
            AccessPermissions::PrivilegedOnly
        } else if b == 2 {
            AccessPermissions::NoUserWrite
        } else if b == 3 {
            AccessPermissions::FullAccess
        } else if b == 4 {
            AccessPermissions::_Reserved1
        } else if b == 5 {
            AccessPermissions::PrivilegedReadOnly
        } else if b == 6 {
            AccessPermissions::ReadOnly
        } else {
            AccessPermissions::_Reserved2
        }
    }

    /// The two low permission bits, as stored in bits 10..=11 of a section
    /// entry.
    pub open spec fn spec_ap(self) -> u32 {
        self.spec_bits() & 3
    }

    /// The two low permission bits.
    pub fn ap(&self) -> (r: u32)
        ensures
            r == self.spec_ap(),
            r < 4,
    {
        let b = self.bits();
        proof {
            assert(b < 8u32 ==> b & 3u32 == (if b >= 4 { (b - 4) as u32 } else {b})) by (bit_vector);
        }
        b & 3
    }

    /// The permission-extension bit, as stored in bit 15 of a section
    /// entry: set for the upper half of the encoding space.
    pub open spec fn spec_apx(self) -> bool {
        self.spec_bits() > 3
    }

    /// The permission-extension bit.
    pub fn apx(&self) -> (r: bool)
        ensures
            r == self.spec_apx(),
    {
        self.bits() > 3
    }
}

/// The entry-type bits of a level-one descriptor.
#[derive(Clone, Copy, Debug, PartialEq, Eq, Structural)]
pub enum L1EntryType {
    /// Access generates an abort exception: an unmapped virtual address
    /// (0b00).
    Fault,
    /// The entry points to a level-two translation table (0b01).
    PageTable,
    /// The entry maps a one-megabyte section (0b10).
    Section,
    /// A supersection entry, repeated over sixteen slots (0b11).
    Supersection,
}

impl L1EntryType {
    /// The two-bit encoding of this entry type.
    pub open spec fn spec_bits(self) -> u32 {
        match self {
            L1EntryType::Fault => 0,
            L1EntryType::PageTable => 1,
            L1EntryType::Section => 2,
            L1EntryType::Supersection => 3,
        }
    }

    /// The two-bit encoding of this entry type.
    pub fn bits(self) -> (r: u32)
        ensures
            r == self.spec_bits(),
            r < 4,
    {
        match self {
            L1EntryType::Fault => 0,
            L1EntryType::PageTable => 1,
            L1EntryType::Section => 2,
            L1EntryType::Supersection => 3,
        }
    }

    /// Decode a two-bit encoding (the field is exhaustive).
    pub open spec fn spec_from_bits(b: u32) -> L1EntryType {
        if b == 0 {
            L1EntryType::Fault
        } else if b == 1 {
            L1EntryType::PageTable
        } else if b == 2 {
            L1EntryType::Section
        } else {
            L1EntryType::Supersection
        }
    }

    /// Decode a two-bit encoding.
    pub fn from_bits(b: u32) -> (r: L1EntryType)
        requires
            b < 4,
        ensures
            r == Self::spec_from_bits(b),
            r.spec_bits() == b,
    {
        if b == 0 {
            L1EntryType::Fault
        } else if b == 1 {
            L1EntryType::PageTable
        } else if b == 2 {
            L1EntryType::Section
        } else {
            L1EntryType::Supersection
        }
    }
}

/// The raw memory-region attribute bits of a section entry: the
/// type-extension bits and the legacy cacheable and bufferable bits, whose
/// historic names no longer describe their function.
#[derive(Clone, Copy, Debug, PartialEq, Eq, Structural)]
pub struct MemoryRegionAttributesRaw {
    /// The type-extension bits (three bits).
    pub type_extensions: u32,
    /// The legacy cacheable bit.
    pub c: bool,
    /// The legacy bufferable bit.
    pub b: bool,
}

impl MemoryRegionAttributesRaw {
    /// The type-extension bits fit their three-bit field.
    pub open spec fn wf(self) -> bool {
        self.type_extensions < 8
    }

    /// Pack the three raw attribute parts.
    pub fn new(type_extensions: u32, c: bool, b: bool) -> (r: MemoryRegionAttributesRaw)
        requires
            type_extensions < 8,
        ensures
            r == (MemoryRegionAttributesRaw { type_extensions, c, b }),
            r.wf(),
    {
        MemoryRegionAttributesRaw { type_extensions, c, b }
    }
}

/// Cacheability of one cache level of a normal memory region.
#[derive(Clone, Copy, Debug, PartialEq, Eq, Structural)]
pub enum CacheableMemoryAttribute {
    /// Non-cacheable (0b00).
    NonCacheable,
    /// Write-back, write-allocate (0b01).
    WriteBackWriteAlloc,
    /// Write-through, no write-allocate (0b10).
    WriteThroughNoWriteAlloc,
    /// Write-back, no write-allocate (0b11).
    WriteBackNoWriteAlloc,
}

impl CacheableMemoryAttribute {
    /// The two-bit encoding of this attribute.
    pub open spec fn spec_bits(self) -> u32 {
        match self {
            CacheableMemoryAttribute::NonCacheable => 0,
            CacheableMemoryAttribute::WriteBackWriteAlloc => 1,
            CacheableMemoryAttribute::WriteThroughNoWriteAlloc => 2,
            CacheableMemoryAttribute::WriteBackNoWriteAlloc => 3,
        }
    }

    /// The two-bit encoding of this attribute.
    pub fn bits(self) -> (r: u32)
        ensures
            r == self.spec_bits(),
            r < 4,
    {
        match self {
            CacheableMemoryAttribute::NonCacheable => 0,
            CacheableMemoryAttribute::WriteBackWriteAlloc => 1,
            CacheableMemoryAttribute::WriteThroughNoWriteAlloc => 2,
            CacheableMemoryAttribute::WriteBackNoWriteAlloc => 3,
        }
    }
}

/// The memory-region attribute of a section, in the architecture's named
/// combinations.
#[derive(Clone, Copy, Debug, PartialEq, Eq, Structural)]
pub enum MemoryRegionAttributes {
    /// Strongly-ordered memory.
    StronglyOrdered,
    /// Shareable device memory.
    ShareableDevice,
    /// Outer and inner write-through, no write-allocate.
    OuterAndInnerWriteThroughNoWriteAlloc,
    /// Outer and inner write-back, no write-allocate.
    OuterAndInnerWriteBackNoWriteAlloc,
    /// Outer and inner non-cacheable.
    OuterAndInnerNonCacheable,
    /// Outer and inner write-back, write-allocate.
    OuterAndInnerWriteBackWriteAlloc,
    /// Non-shareable device memory.
    NonShareableDevice,
    /// Cacheable memory with separate inner and outer policies.
    CacheableMemory {
        /// The inner cacheability.
        inner: CacheableMemoryAttribute,
        /// The outer cacheability.
        outer: CacheableMemoryAttribute,
    },
}

impl MemoryRegionAttributes {
    /// The raw attribute bits this named combination stands for.
    pub open spec fn spec_as_raw(self) -> MemoryRegionAttributesRaw {
        match self {
            MemoryRegionAttributes::StronglyOrdered => MemoryRegionAttributesRaw {
                type_extensions: 0,
                c: false,
                b: false,
            },
            MemoryRegionAttributes::ShareableDevice => MemoryRegionAttributesRaw {
                type_extensions: 0,
                c: false,
                b: true,
            },
            MemoryRegionAttributes::OuterAndInnerWriteThroughNoWriteAlloc
                => MemoryRegionAttributesRaw { type_extensions: 0, c: true, b: false },
            MemoryRegionAttributes::OuterAndInnerWriteBackNoWriteAlloc
                => MemoryRegionAttributesRaw { type_extensions: 0, c: true, b: true },
            MemoryRegionAttributes::OuterAndInnerNonCacheable => MemoryRegionAttributesRaw {
                type_extensions: 1,
                c: false,
                b: false,
            },
            MemoryRegionAttributes::OuterAndInnerWriteBackWriteAlloc
                => MemoryRegionAttributesRaw { type_extensions: 1, c: true, b: true },
            MemoryRegionAttributes::NonShareableDevice => MemoryRegionAttributesRaw {
                type_extensions: 2,
                c: false,
                b: false,
            },
            MemoryRegionAttributes::CacheableMemory { inner, outer } => MemoryRegionAttributesRaw {
                type_extensions: (4 | outer.spec_bits()) as u32,
                c: inner.spec_bits() & 2 != 0,
                b: inner.spec_bits() & 1 != 0,
            },
        }
    }

    /// Lower this named combination to its raw attribute bits: cacheable
    /// memory sets the top type-extension bit and carries the outer policy
    /// in the low two, with the inner policy split across the legacy
    /// cacheable and bufferable bits.
    pub fn as_raw(&self) -> (r: MemoryRegionAttributesRaw)
        ensures
            r == self.spec_as_raw(),
            r.wf(),
    {
        match self {
            MemoryRegionAttributes::StronglyOrdered => MemoryRegionAttributesRaw::new(
                0,
                false,
                false,
            ),
            MemoryRegionAttributes::ShareableDevice => MemoryRegionAttributesRaw::new(
                0,
                false,
                true,
            ),
            MemoryRegionAttributes::OuterAndInnerWriteThroughNoWriteAlloc
                => MemoryRegionAttributesRaw::new(0, true, false),
            MemoryRegionAttributes::OuterAndInnerWriteBackNoWriteAlloc
                => MemoryRegionAttributesRaw::new(0, true, true),
            MemoryRegionAttributes::OuterAndInnerNonCacheable => MemoryRegionAttributesRaw::new(
                1,
                false,
                false,
            ),
            MemoryRegionAttributes::OuterAndInnerWriteBackWriteAlloc
                => MemoryRegionAttributesRaw::new(1, true, true),
            MemoryRegionAttributes::NonShareableDevice => MemoryRegionAttributesRaw::new(
                2,
                false,
                false,
            ),
            MemoryRegionAttributes::CacheableMemory { inner, outer } => {
                let ob = outer.bits();
                let ib = inner.bits();
                proof {
                    assert(ob < 4u32 ==> (4u32 | ob) < 8u32) by (bit_vector);
                }
                MemoryRegionAttributesRaw::new(4 | ob, ib & 2 != 0, ib & 1 != 0)
            },
        }
    }
}

/// One bit as an integer.
pub open spec fn spec_bit(b: bool) -> u32 {
    if b {
        1
    } else {
        0
    }
}

/// The attribute fields of a one-megabyte section entry, below the base
/// address.
#[derive(Clone, Copy, Debug, PartialEq, Eq, Structural)]
pub struct SectionAttributes {
    /// The non-global bit.
    pub non_global: bool,
    /// The implementation-defined bit.
    pub p_bit: bool,
    /// The shareable bit.
    pub shareable: bool,
    /// The access permissions.
    pub access: AccessPermissions,
    /// The memory-region attribute bits.
    pub memory_attrs: MemoryRegionAttributesRaw,
    /// The domain (four bits).
    pub domain: u32,
    /// The execute-never bit.
    pub execute_never: bool,
}

impl SectionAttributes {
    /// The domain and type-extension fields fit their bit fields.
    pub open spec fn wf(self) -> bool {
        &&& self.domain < 16
        &&& self.memory_attrs.wf()
    }

    /// The lower eighteen bits of the section entry these attributes
    /// stand for.
    pub open spec fn spec_raw(self) -> u32 {
        (spec_bit(self.non_global) << 17u32) | (spec_bit(self.shareable) << 16u32) | (spec_bit(
            self.access.spec_apx(),
        ) << 15u32) | (self.memory_attrs.type_extensions << 12u32) | (self.access.spec_ap()
            << 10u32) | (spec_bit(self.p_bit) << 9u32) | (self.domain << 5u32) | (spec_bit(
            self.execute_never,
        ) << 4u32) | (spec_bit(self.memory_attrs.c) << 3u32) | (spec_bit(self.memory_attrs.b)
            << 2u32) | 2u32
    }

    /// Pack the attributes into the lower eighteen bits of a section
    /// entry (the entry-type bits name a section).
    pub fn raw(&self) -> (r: u32)
        ensures
            r == self.spec_raw(),
    {
        (if self.non_global {
            1u32
        } else {
            0u32
        } << 17u32) | (if self.shareable {
            1u32
        } else {
            0u32
        } << 16u32) | (if self.access.apx() {
            1u32
        } else {
            0u32
        } << 15u32) | (self.memory_attrs.type_extensions << 12u32) | (self.access.ap() << 10u32)
            | (if self.p_bit {
            1u32
        } else {
            0u32
        } << 9u32) | (self.domain << 5u32) | (if self.execute_never {
            1u32
        } else {
            0u32
        } << 4u32) | (if self.memory_attrs.c {
            1u32
        } else {
            0u32
        } << 3u32) | (if self.memory_attrs.b {
            1u32
        } else {
            0u32
        } << 2u32) | 2u32
    }

    /// The attributes a raw entry's bits hold, read field by field.
    pub open spec fn spec_from_raw(raw: u32) -> SectionAttributes {
        SectionAttributes {
            non_global: (raw >> 17u32) & 1 != 0,
            shareable: (raw >> 16u32) & 1 != 0,
            p_bit: (raw >> 9u32) & 1 != 0,
            access: AccessPermissions::spec_from_bits(
                (((raw >> 15u32) & 1) << 2u32) | ((raw >> 10u32) & 3),
            ),
            memory_attrs: MemoryRegionAttributesRaw {
                type_extensions: (raw >> 12u32) & 7,
                c: (raw >> 3u32) & 1 != 0,
                b: (raw >> 2u32) & 1 != 0,
            },
            domain: (raw >> 5u32) & 15,
            execute_never: (raw >> 4u32) & 1 != 0,
        }
    }

    /// Extract the section attributes from a raw entry, checking that the
    /// entry-type bits name a section: any other entry type is returned as
    /// the error, exactly when `raw & 3 != 2`.
    pub fn from_raw(raw: u32) -> (r: Result<SectionAttributes, InvalidL1EntryType>)
        ensures
            (raw & 3) == 2 ==> r == Ok::<SectionAttributes, InvalidL1EntryType>(
                Self::spec_from_raw(raw),
            ),
            (raw & 3) != 2 ==> r == Err::<SectionAttributes, InvalidL1EntryType>(
                InvalidL1EntryType(L1EntryType::spec_from_bits(raw & 3)),
            ),
    {
        proof {
            assert(raw & 3u32 < 4u32) by (bit_vector);
        }
        let type_bits = raw & 3;
        let section_type = L1EntryType::from_bits(type_bits);
        if type_bits != 2 {
            return Err(InvalidL1EntryType(section_type));
        }
        Ok(Self::from_raw_unchecked(raw))
    }

    /// Extract the section attributes without checking the entry-type
    /// bits.
    pub fn from_raw_unchecked(raw: u32) -> (r: SectionAttributes)
        ensures
            r == Self::spec_from_raw(raw),
            r.wf(),
    {
        proof {
            let x = raw;
            assert(((((x >> 15u32) & 1) << 2u32) | ((x >> 10u32) & 3)) < 8u32) by (bit_vector);
            assert((x >> 12u32) & 7 < 8u32) by (bit_vector);
            assert((x >> 5u32) & 15 < 16u32) by (bit_vector);
        }
        SectionAttributes {
            non_global: (raw >> 17u32) & 1 != 0,
            shareable: (raw >> 16u32) & 1 != 0,
            p_bit: (raw >> 9u32) & 1 != 0,
            access: AccessPermissions::from_bits(
                (((raw >> 15u32) & 1) << 2u32) | ((raw >> 10u32) & 3),
            ),
            memory_attrs: MemoryRegionAttributesRaw {
                type_extensions: (raw >> 12u32) & 7,
                c: (raw >> 3u32) & 1 != 0,
                b: (raw >> 2u32) & 1 != 0,
            },
            domain: (raw >> 5u32) & 15,
            execute_never: (raw >> 4u32) & 1 != 0,
        }
    }
}

/// Packing well-formed section attributes and reading them back yields the
/// attributes unchanged, and the packed word's entry-type bits always name
/// a section.
pub proof fn lemma_section_attributes_roundtrip(attrs: SectionAttributes)
    requires
        attrs.wf(),
    ensures
        attrs.spec_raw() & 3 == 2,
        SectionAttributes::spec_from_raw(attrs.spec_raw()) == attrs,
{
    let ng = spec_bit(attrs.non_global);
    let s = spec_bit(attrs.shareable);
    let apx = spec_bit(attrs.access.spec_apx());
    let tex = attrs.memory_attrs.type_extensions;
    let ap = attrs.access.spec_ap();
    let p = spec_bit(attrs.p_bit);
    let dom = attrs.domain;
    let xn = spec_bit(attrs.execute_never);
    let c = spec_bit(attrs.memory_attrs.c);
    let b = spec_bit(attrs.memory_attrs.b);
    let raw = attrs.spec_raw();
    let abits = attrs.access.spec_bits();
    assert(abits < 8);
    assert(abits & 3 < 4u32) by (bit_vector)
        requires
            abits < 8,
    ;
    lemma_section_bits_roundtrip(ng, s, apx, tex, ap, p, dom, xn, c, b);
    assert((apx << 2u32) | ap == abits) by (bit_vector)
        requires
            apx == (if abits > 3 {
                1u32
            } else {
                0u32
            }) && ap == abits & 3 && abits < 8,
    ;
}

/// Reading each field back out of the packed section word yields the field
/// that was packed in, for in-range field values.
proof fn lemma_section_bits_roundtrip(
    ng: u32,
    s: u32,
    apx: u32,
    tex: u32,
    ap: u32,
    p: u32,
    dom: u32,
    xn: u32,
    c: u32,
    b: u32,
)
    by (bit_vector)
    requires
        ng < 2,
        s < 2,
        apx < 2,
        tex < 8,
        ap < 4,
        p < 2,
        dom < 16,
        xn < 2,
        c < 2,
        b < 2,
    ensures
        ({
            let raw = (ng << 17u32) | (s << 16u32) | (apx << 15u32) | (tex << 12u32) | (ap
                << 10u32) | (p << 9u32) | (dom << 5u32) | (xn << 4u32) | (c << 3u32) | (b << 2u32)
                | 2u32;
            &&& raw & 3 == 2
            &&& (raw >> 17u32) & 1 == ng
            &&& (raw >> 16u32) & 1 == s
            &&& (raw >> 15u32) & 1 == apx
            &&& (raw >> 12u32) & 7 == tex
            &&& (raw >> 10u32) & 3 == ap
            &&& (raw >> 9u32) & 1 == p
            &&& (raw >> 5u32) & 15 == dom
            &&& (raw >> 4u32) & 1 == xn
            &&& (raw >> 3u32) & 1 == c
            &&& (raw >> 2u32) & 1 == b
        }),
{
}

/// A one-megabyte section translation entry: the upper twelve bits of the
/// physical base address over the packed section attributes.
#[derive(Clone, Copy, Debug, PartialEq, Eq, Structural)]
pub struct L1Section {
    /// The raw 32-bit entry.
    pub raw: u32,
}

impl L1Section {
    /// Wrap a raw entry.
    pub fn new_with_raw_value(raw: u32) -> (r: L1Section)
        ensures
            r.raw == raw,
    {
        L1Section { raw }
    }

    /// The raw entry.
    pub fn raw_value(self) -> (r: u32)
        ensures
            r == self.raw,
    {
        self.raw
    }

    /// Build a section entry from a physical address and attributes. The
    /// address selects which megabyte of address space the entry maps and
    /// must be aligned to one megabyte.
    pub fn new(phys_addr: u32, section_attrs: SectionAttributes) -> (r: L1Section)
        requires
            phys_addr & 0x000F_FFFF == 0,
        ensures
            r.raw == (((phys_addr >> 20u32) << 20u32) | section_attrs.spec_raw()),
    {
        let higher_bits = phys_addr >> 20u32;
        L1Section { raw: (higher_bits << 20u32) | section_attrs.raw() }
    }

    /// The section base address's upper twelve bits (bits 20..=31).
    pub fn base_addr(self) -> (r: u32)
        ensures
            r == self.raw >> 20u32,
    {
        self.raw >> 20u32
    }

    /// The non-global bit (bit 17).
    pub fn ng(self) -> (r: bool)
        ensures
            r == ((self.raw >> 17u32) & 1 != 0),
    {
        (self.raw >> 17u32) & 1 != 0
    }

    /// The shareable bit (bit 16).
    pub fn s(self) -> (r: bool)
        ensures
            r == ((self.raw >> 16u32) & 1 != 0),
    {
        (self.raw >> 16u32) & 1 != 0
    }

    /// The access-permission extension bit (bit 15).
    pub fn apx(self) -> (r: bool)
        ensures
            r == ((self.raw >> 15u32) & 1 != 0),
    {
        (self.raw >> 15u32) & 1 != 0
    }

    /// The type-extension bits (bits 12..=14).
    pub fn tex(self) -> (r: u32)
        ensures
            r == (self.raw >> 12u32) & 7,
    {
        (self.raw >> 12u32) & 7
    }

    /// The two low access-permission bits (bits 10..=11).
    pub fn ap(self) -> (r: u32)
        ensures
            r == (self.raw >> 10u32) & 3,
    {
        (self.raw >> 10u32) & 3
    }

    /// The implementation-defined bit (bit 9).
    pub fn p_bit(self) -> (r: bool)
        ensures
            r == ((self.raw >> 9u32) & 1 != 0),
    {
        (self.raw >> 9u32) & 1 != 0
    }

    /// The domain (bits 5..=8).
    pub fn domain(self) -> (r: u32)
        ensures
            r == (self.raw >> 5u32) & 15,
    {
        (self.raw >> 5u32) & 15
    }

    /// The execute-never bit (bit 4).
    pub fn xn(self) -> (r: bool)
        ensures
            r == ((self.raw >> 4u32) & 1 != 0),
    {
        (self.raw >> 4u32) & 1 != 0
    }

    /// The legacy cacheable bit (bit 3).
    pub fn c(self) -> (r: bool)
        ensures
            r == ((self.raw >> 3u32) & 1 != 0),
    {
        (self.raw >> 3u32) & 1 != 0
    }

    /// The legacy bufferable bit (bit 2).
    pub fn b(self) -> (r: bool)
        ensures
            r == ((self.raw >> 2u32) & 1 != 0),
    {
        (self.raw >> 2u32) & 1 != 0
    }

    /// The entry type (bits 0..=1).
    pub fn entry_type(self) -> (r: L1EntryType)
        ensures
            r == L1EntryType::spec_from_bits(self.raw & 3),
    {
        proof {
            let x = self.raw;
            assert(x & 3u32 < 4u32) by (bit_vector);
        }
        L1EntryType::from_bits(self.raw & 3)
    }
}

} // verus!
