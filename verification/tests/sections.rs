use aarch32_rt::mmu::AccessPermissions;
use aarch32_rt::mmu::CacheableMemoryAttribute;
use aarch32_rt::mmu::InvalidL1EntryType;
use aarch32_rt::mmu::L1EntryType;
use aarch32_rt::mmu::L1Section;
use aarch32_rt::mmu::MemoryRegionAttributes;
use aarch32_rt::mmu::MemoryRegionAttributesRaw;
use aarch32_rt::mmu::SectionAttributes;

fn example_attrs() -> SectionAttributes {
    SectionAttributes {
        non_global: true,
        p_bit: false,
        shareable: true,
        access: AccessPermissions::FullAccess,
        memory_attrs: MemoryRegionAttributes::OuterAndInnerWriteBackWriteAlloc.as_raw(),
        domain: 0xA,
        execute_never: false,
    }
}

#[test]
fn access_permission_bits_split_into_ap_and_apx() {
    assert_eq!(AccessPermissions::PermissionFault.ap(), 0);
    assert!(!AccessPermissions::PermissionFault.apx());
    assert_eq!(AccessPermissions::FullAccess.ap(), 3);
    assert!(!AccessPermissions::FullAccess.apx());
    assert_eq!(AccessPermissions::PrivilegedReadOnly.ap(), 1);
    assert!(AccessPermissions::PrivilegedReadOnly.apx());
    assert_eq!(AccessPermissions::ReadOnly.ap(), 2);
    assert!(AccessPermissions::ReadOnly.apx());
}

#[test]
fn named_region_attributes_lower_to_their_bits() {
    let strongly = MemoryRegionAttributes::StronglyOrdered.as_raw();
    assert_eq!(strongly.type_extensions, 0);
    assert!(!strongly.c);
    assert!(!strongly.b);

    let device = MemoryRegionAttributes::ShareableDevice.as_raw();
    assert_eq!(device.type_extensions, 0);
    assert!(!device.c);
    assert!(device.b);

    let noncache = MemoryRegionAttributes::OuterAndInnerNonCacheable.as_raw();
    assert_eq!(noncache.type_extensions, 1);
    assert!(!noncache.c);
    assert!(!noncache.b);

    let nonshared = MemoryRegionAttributes::NonShareableDevice.as_raw();
    assert_eq!(nonshared.type_extensions, 2);

    let cacheable = MemoryRegionAttributes::CacheableMemory {
        inner: CacheableMemoryAttribute::WriteBackNoWriteAlloc,
        outer: CacheableMemoryAttribute::WriteThroughNoWriteAlloc,
    }
    .as_raw();
    assert_eq!(cacheable.type_extensions, 0b110);
    assert!(cacheable.c);
    assert!(cacheable.b);
}

#[test]
fn section_raw_packs_every_field() {
    let raw = example_attrs().raw();
    // ng=1 s=1 apx=0 tex=001 ap=11 p=0 domain=1010 xn=0 c=1 b=1 type=10
    let expected = (1u32 << 17) | (1 << 16) | (0b001 << 12) | (0b11 << 10) | (0xA << 5) | (1 << 3)
        | (1 << 2) | 0b10;
    assert_eq!(raw, expected);
}

#[test]
fn from_raw_inverts_raw() {
    let attrs = example_attrs();
    let raw = attrs.raw();
    assert_eq!(SectionAttributes::from_raw(raw), Ok(attrs));
    assert_eq!(SectionAttributes::from_raw_unchecked(raw), attrs);
}

#[test]
fn from_raw_rejects_non_section_entries() {
    assert_eq!(
        SectionAttributes::from_raw(0b00),
        Err(InvalidL1EntryType(L1EntryType::Fault))
    );
    assert_eq!(
        SectionAttributes::from_raw(0b01),
        Err(InvalidL1EntryType(L1EntryType::PageTable))
    );
    assert_eq!(
        SectionAttributes::from_raw(0b11),
        Err(InvalidL1EntryType(L1EntryType::Supersection))
    );
    assert!(SectionAttributes::from_raw(0b10).is_ok());
}

#[test]
fn l1_section_combines_base_address_and_attributes() {
    let attrs = example_attrs();
    let section = L1Section::new(0x1230_0000, attrs);
    assert_eq!(section.raw_value(), 0x1230_0000 | attrs.raw());
    assert_eq!(section.base_addr(), 0x123);
    assert!(section.ng());
    assert!(section.s());
    assert!(!section.apx());
    assert_eq!(section.tex(), 1);
    assert_eq!(section.ap(), 3);
    assert!(!section.p_bit());
    assert_eq!(section.domain(), 0xA);
    assert!(!section.xn());
    assert!(section.c());
    assert!(section.b());
    assert_eq!(section.entry_type(), L1EntryType::Section);
}

#[test]
fn raw_memory_attributes_hold_their_parts() {
    let raw = MemoryRegionAttributesRaw::new(0b101, true, false);
    assert_eq!(raw.type_extensions, 0b101);
    assert!(raw.c);
    assert!(!raw.b);
}
