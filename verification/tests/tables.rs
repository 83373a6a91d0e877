use iommu::amd::ivrs::{Block, DeviceEntry, DeviceType, EntryType, IvrsError, IvrsTable};
use iommu::intel::dmar::{DmarError, DmarTable, RemapStruct, ScopeType};

/// An ACPI table: `sig`, a header of `header_len` bytes with the total
/// length at bytes 4..8 and revision 1, then `body`; the checksum byte
/// (byte 9) makes the whole table add up to zero.
fn acpi_table(sig: &[u8; 4], header_len: usize, header_extra: &[(usize, u8)], body: &[u8]) -> Vec<u8> {
    let total = header_len + body.len();
    let mut t = vec![0u8; header_len];
    t[0..4].copy_from_slice(sig);
    t[4..8].copy_from_slice(&(total as u32).to_le_bytes());
    t[8] = 1;
    t[10..16].copy_from_slice(b"OEMID ");
    for &(i, v) in header_extra {
        t[i] = v;
    }
    t.extend_from_slice(body);
    let sum = t.iter().fold(0u8, |a, b| a.wrapping_add(*b));
    t[9] = 0u8.wrapping_sub(sum);
    t
}

fn ivrs_body() -> Vec<u8> {
    let mut b = Vec::new();
    // IVHD type 11h: 28-byte header, then three device entries.
    let mut h = vec![0u8; 28];
    h[0] = 0x11;
    h[1] = 0xb0;
    h[4] = 3; // IOMMU id
    h[5..7].copy_from_slice(&1u16.to_le_bytes()); // segment
    h[7..15].copy_from_slice(&0xfeb8_0000u64.to_le_bytes()); // base
    h[15] = 0x10;
    h[16] = 0x20;
    h[17..21].copy_from_slice(&0x0004_0048u32.to_le_bytes()); // capability
    h[21..25].copy_from_slice(&0x1234_5678u32.to_le_bytes()); // EFR
    h.extend_from_slice(&[0x02, 0, 0x10, 0x00]); // select
    h.extend_from_slice(&[0x03, 0, 0x08, 0x00, 0, 0, 0x30, 0x00]); // alias select
    h.extend_from_slice(&[0x48, 8, 1, 2, 3, 4, 5, 6]); // ACPI HID
    h.extend_from_slice(&[0x03, 0, 0x08, 0x00]); // truncated alias entry
    let len = h.len() as u16;
    h[2..4].copy_from_slice(&len.to_le_bytes());
    b.extend_from_slice(&h);
    // IVMD type 20h, 32 bytes.
    let mut m = vec![0u8; 32];
    m[0] = 0x20;
    m[1] = 0x01;
    m[2..4].copy_from_slice(&32u16.to_le_bytes());
    m[4..6].copy_from_slice(&2u16.to_le_bytes());
    m[8..16].copy_from_slice(&0x8000_0000u64.to_le_bytes());
    m[16..24].copy_from_slice(&0x10_0000u64.to_le_bytes());
    b.extend_from_slice(&m);
    // Unknown block type 30h, 4 bytes.
    b.extend_from_slice(&[0x30, 0, 4, 0]);
    // A block that claims more bytes than there are: ends the walk.
    b.extend_from_slice(&[0x10, 0, 64, 0, 0, 0]);
    b
}

#[test]
fn ivrs_parses_blocks_and_device_entries() {
    let raw = acpi_table(b"IVRS", 44, &[], &ivrs_body());
    let ivrs = IvrsTable::new(&raw).unwrap();
    assert_eq!(ivrs.revision(), 1);
    assert_eq!(ivrs.checksum(), raw[9]);

    let units = ivrs.ivhd_units();
    assert_eq!(units.len(), 1);
    let hd = units[0];
    assert_eq!(hd.entry_type(), EntryType::IvhdType11);
    assert_eq!(hd.flags(), 0xb0);
    assert_eq!(hd.iommu_id(), 3);
    assert_eq!(hd.segment(), 1);
    assert_eq!(hd.base_address(), 0xfeb8_0000);
    assert_eq!(hd.device_range(), Some((0x10, 0x20)));
    assert_eq!(hd.capability(), Some(0x0004_0048));
    assert_eq!(hd.extended_features(), Some(0x1234_5678));

    let mut devs = hd.devices();
    assert_eq!(devs.next(), Some(DeviceEntry::Short { ty: DeviceType::Select, data: 0x10, data2: 0 }));
    assert_eq!(
        devs.next(),
        Some(DeviceEntry::Long { ty: DeviceType::AliasSelect, bus: 0x08, devfn: 0, source_id: 0x30 })
    );
    assert_eq!(
        devs.next(),
        Some(DeviceEntry::Variable { ty: DeviceType::AcpiHid, raw: &[0x48, 8, 1, 2, 3, 4, 5, 6] })
    );
    // The truncated alias entry is not whole: iteration stops and stays.
    assert_eq!(devs.next(), None);
    assert_eq!(devs.next(), None);

    let mds = ivrs.ivmd_units();
    assert_eq!(mds.len(), 1);
    assert_eq!(mds[0].flags(), 0x01);
    assert_eq!(mds[0].segment(), 2);
    assert_eq!(mds[0].base(), 0x8000_0000);
    assert_eq!(mds[0].length(), 0x10_0000);

    let mut blocks = ivrs.blocks();
    assert!(matches!(blocks.next(), Some(Block::Ivhd(_))));
    assert!(matches!(blocks.next(), Some(Block::Ivmd(_))));
    match blocks.next() {
        Some(Block::Unknown { ty, raw }) => {
            assert_eq!(ty, 0x30);
            assert_eq!(raw, &[0x30, 0, 4, 0]);
        }
        other => panic!("unexpected {other:?}"),
    }
    assert!(blocks.next().is_none());
}

#[test]
fn ivrs_type_10_has_no_extended_features() {
    let mut h = vec![0u8; 24];
    h[0] = 0x10;
    h[2] = 24;
    h.extend_from_slice(&[0x01, 0, 0, 0]); // all devices
    h[2] = 28;
    let raw = acpi_table(b"IVRS", 44, &[], &h);
    let ivrs = IvrsTable::new(&raw).unwrap();
    let hd = ivrs.ivhd_units()[0];
    assert_eq!(hd.entry_type(), EntryType::IvhdType10);
    assert_eq!(hd.extended_features(), None);
    let mut devs = hd.devices();
    assert_eq!(devs.next(), Some(DeviceEntry::Short { ty: DeviceType::All, data: 0, data2: 0 }));
    assert_eq!(devs.next(), None);
}

#[test]
fn ivrs_errors() {
    assert_eq!(IvrsTable::new(&[0u8; 10]).unwrap_err(), IvrsError::TooShort { len: 10 });
    // A 44-byte header alone is still too short.
    let header = acpi_table(b"IVRS", 44, &[], &[]);
    assert_eq!(IvrsTable::new(&header).unwrap_err(), IvrsError::TooShort { len: 44 });
    assert_eq!(IvrsTable::new(&[0u8; 47]).unwrap_err(), IvrsError::TooShort { len: 47 });

    let mut raw = acpi_table(b"IVRS", 44, &[], &[0x30, 0, 4, 0]);
    raw[3] = b'X';
    assert_eq!(IvrsTable::new(&raw).unwrap_err(), IvrsError::BadSignature(*b"IVRX"));

    let mut long = acpi_table(b"IVRS", 44, &[], &[0x30, 0, 4, 0]);
    long[4] = 200;
    assert_eq!(
        IvrsTable::new(&long).unwrap_err(),
        IvrsError::BadLength { claimed: 200, available: 48 }
    );
    let mut short = acpi_table(b"IVRS", 44, &[], &[0x30, 0, 4, 0]);
    short[4] = 20;
    assert_eq!(
        IvrsTable::new(&short).unwrap_err(),
        IvrsError::BadLength { claimed: 20, available: 48 }
    );

    let mut bad = acpi_table(b"IVRS", 44, &[], &[0x30, 0, 4, 0]);
    bad[9] = bad[9].wrapping_add(1);
    assert_eq!(IvrsTable::new(&bad).unwrap_err(), IvrsError::BadChecksum);
}

#[test]
fn ivrs_view_covers_the_claimed_length_only() {
    let mut raw = acpi_table(b"IVRS", 44, &[], &[0x30, 0, 4, 0]);
    // Bytes past the claimed length are ignored, checksum included.
    raw.extend_from_slice(&[0x10, 0, 24, 0, 9, 9, 9]);
    let ivrs = IvrsTable::new(&raw).unwrap();
    let mut blocks = ivrs.blocks();
    assert!(matches!(blocks.next(), Some(Block::Unknown { ty: 0x30, .. })));
    assert!(blocks.next().is_none());
    assert!(ivrs.ivhd_units().is_empty());
}

#[test]
fn entry_and_device_type_codes() {
    assert_eq!(EntryType::from(0x10), EntryType::IvhdType10);
    assert_eq!(EntryType::from(0x11), EntryType::IvhdType11);
    assert_eq!(EntryType::from(0x40), EntryType::IvhdType40);
    assert_eq!(EntryType::from(0x20), EntryType::Ivmd);
    assert_eq!(EntryType::from(0x22), EntryType::Reserved(0x22));
    assert_eq!(DeviceType::from(0x01), DeviceType::All);
    assert_eq!(DeviceType::from(0x41), DeviceType::Special);
    assert_eq!(DeviceType::from(0x48), DeviceType::AcpiHid);
    assert_eq!(DeviceType::from(0x43), DeviceType::Reserved(0x43));
}

fn dmar_body() -> Vec<u8> {
    let mut b = Vec::new();
    // DRHD: INCLUDE_PCI_ALL, size order 3, segment 2, base 0xfed9_1000, two scopes.
    let mut d = vec![0u8, 0, 32, 0, 0x01, 0x13];
    d.extend_from_slice(&2u16.to_le_bytes());
    d.extend_from_slice(&0xfed9_1000u64.to_le_bytes());
    d.extend_from_slice(&[0x01, 8, 0, 0, 0, 0, 2, 0]); // PCI endpoint 00:02.0
    d.extend_from_slice(&[0x03, 8, 0, 0, 8, 0xf0, 0x1f, 0x07]); // IOAPIC 8 at f0:1f.7
    b.extend_from_slice(&d);
    // RMRR: base 0x7a00_0000, limit 0x7a0f_ffff, one scope.
    let mut r = vec![1u8, 0, 32, 0, 0, 0, 0, 0];
    r.extend_from_slice(&0x7a00_0000u64.to_le_bytes());
    r.extend_from_slice(&0x7a0f_ffffu64.to_le_bytes());
    r.extend_from_slice(&[0x02, 10, 0, 0, 0, 0, 0x1c, 0x00, 0x00, 0x00]);
    r[2] = r.len() as u8;
    b.extend_from_slice(&r);
    // ATSR: ALL_PORTS, segment 0.
    b.extend_from_slice(&[2, 0, 8, 0, 1, 0, 0, 0]);
    // RHSA: segment 0, base 0xfed9_1000, proximity domain 1.
    let mut h = vec![3u8, 0, 24, 0, 0, 0, 0, 0, 0, 0, 0, 0];
    h.extend_from_slice(&0xfed9_1000u64.to_le_bytes());
    h.extend_from_slice(&1u32.to_le_bytes());
    b.extend_from_slice(&h);
    // ANDD: device number 5, segment 0, name "\_SB.UAR0".
    let mut a = vec![4u8, 0, 0, 0, 0, 0, 0, 5, 0, 0];
    a.extend_from_slice(b"\\_SB.UAR0\0");
    a[2] = a.len() as u8;
    b.extend_from_slice(&a);
    // SATC: ATC_REQUIRED, segment 0.
    b.extend_from_slice(&[5, 0, 8, 0, 1, 0, 0, 0]);
    // SIDP: segment 3.
    b.extend_from_slice(&[6, 0, 8, 0, 0, 0, 3, 0]);
    // Unknown type 9.
    b.extend_from_slice(&[9, 0, 4, 0]);
    b
}

#[test]
fn dmar_parses_every_structure_kind() {
    let raw = acpi_table(b"DMAR", 48, &[(36, 38), (37, 0b11)], &dmar_body());
    let dmar = DmarTable::new(&raw).unwrap();
    assert_eq!(&dmar.signature(), b"DMAR");
    assert_eq!(dmar.revision(), 1);
    assert_eq!(&dmar.oem_id(), b"OEMID ");
    assert_eq!(dmar.host_address_width(), 39);
    assert_eq!(dmar.flags_raw(), 0b11);
    assert!(dmar.intr_remap_required());
    assert!(dmar.x2apic_opt_out());

    let mut it = dmar.structs();
    match it.next() {
        Some(RemapStruct::Drhd(d)) => {
            assert!(d.include_pci_all());
            assert_eq!(d.register_size_order(), 3);
            assert_eq!(d.register_size(), 1 << 15);
            assert_eq!(d.segment(), 2);
            assert_eq!(d.register_base(), 0xfed9_1000);
            assert_eq!(d.raw().len(), 32);
            let mut scopes = d.scopes();
            let s = scopes.next().unwrap();
            assert_eq!(s.ty, ScopeType::PciEndpoint);
            assert_eq!(s.bus, 0);
            assert_eq!(s.path, &[2, 0]);
            assert_eq!(s.first_source_id(), Some(0x10));
            assert_eq!(s.path_pairs(), vec![(2, 0)]);
            let s = scopes.next().unwrap();
            assert_eq!(s.ty, ScopeType::Ioapic);
            assert_eq!(s.enumeration_id, 8);
            assert_eq!(s.bus, 0xf0);
            assert_eq!(s.first_source_id(), Some(0xf0ff));
            assert!(scopes.next().is_none());
        }
        other => panic!("unexpected {other:?}"),
    }
    match it.next() {
        Some(RemapStruct::Rmrr(r)) => {
            assert_eq!(r.segment(), 0);
            assert_eq!(r.base(), 0x7a00_0000);
            assert_eq!(r.limit(), 0x7a0f_ffff);
            let s = r.scopes().next().unwrap();
            assert_eq!(s.ty, ScopeType::PciSubhierarchy);
            assert_eq!(s.path_pairs(), vec![(0x1c, 0), (0, 0)]);
        }
        other => panic!("unexpected {other:?}"),
    }
    match it.next() {
        Some(RemapStruct::Atsr(a)) => {
            assert!(a.all_ports());
            assert_eq!(a.segment(), 0);
            assert!(a.scopes().next().is_none());
        }
        other => panic!("unexpected {other:?}"),
    }
    match it.next() {
        Some(RemapStruct::Rhsa(h)) => {
            assert_eq!(h.segment(), 0);
            assert_eq!(h.base(), 0xfed9_1000);
            assert_eq!(h.proximity_domain(), 1);
        }
        other => panic!("unexpected {other:?}"),
    }
    match it.next() {
        Some(RemapStruct::Andd(a)) => {
            assert_eq!(a.acpi_device_number(), 5);
            assert_eq!(a.segment(), 0);
            assert_eq!(a.object_name(), b"\\_SB.UAR0");
        }
        other => panic!("unexpected {other:?}"),
    }
    match it.next() {
        Some(RemapStruct::Satc(s)) => {
            assert!(s.atc_required());
            assert_eq!(s.segment(), 0);
        }
        other => panic!("unexpected {other:?}"),
    }
    match it.next() {
        Some(RemapStruct::Sidp(s)) => assert_eq!(s.segment(), 3),
        other => panic!("unexpected {other:?}"),
    }
    match it.next() {
        Some(RemapStruct::Unknown { ty, raw }) => {
            assert_eq!(ty, 9);
            assert_eq!(raw, &[9, 0, 4, 0]);
        }
        other => panic!("unexpected {other:?}"),
    }
    assert!(it.next().is_none());

    let units = dmar.drhd_units();
    assert_eq!(units.len(), 1);
    assert_eq!(units[0].register_base(), 0xfed9_1000);
}

#[test]
fn dmar_short_structures_read_as_zero() {
    // An RHSA of 20 bytes has no room for the proximity domain; an ANDD of
    // 10 bytes has an empty name; an overrunning structure ends the walk.
    let mut body = vec![3u8, 0, 20, 0, 0, 0, 0, 0, 7, 0, 0, 0];
    body.extend_from_slice(&0x1000u64.to_le_bytes());
    body.extend_from_slice(&[4, 0, 10, 0, 0, 0, 0, 9, 1, 0]);
    body.extend_from_slice(&[0, 0, 200, 0]);
    let raw = acpi_table(b"DMAR", 48, &[(36, 47)], &body);
    let dmar = DmarTable::new(&raw).unwrap();
    let mut it = dmar.structs();
    match it.next() {
        Some(RemapStruct::Rhsa(h)) => {
            assert_eq!(h.segment(), 7);
            assert_eq!(h.base(), 0x1000);
            assert_eq!(h.proximity_domain(), 0);
        }
        other => panic!("unexpected {other:?}"),
    }
    match it.next() {
        Some(RemapStruct::Andd(a)) => {
            assert_eq!(a.acpi_device_number(), 9);
            assert_eq!(a.segment(), 1);
            assert!(a.object_name().is_empty());
        }
        other => panic!("unexpected {other:?}"),
    }
    assert!(it.next().is_none());
    assert!(it.next().is_none());
    assert!(dmar.drhd_units().is_empty());
}

#[test]
fn dmar_errors() {
    assert_eq!(DmarTable::new(&[0u8; 47]).unwrap_err(), DmarError::TooShort { len: 47 });

    let mut raw = acpi_table(b"DMAR", 48, &[], &[]);
    raw[0] = b'X';
    assert_eq!(DmarTable::new(&raw).unwrap_err(), DmarError::BadSignature(*b"XMAR"));

    let mut long = acpi_table(b"DMAR", 48, &[], &[]);
    long[4] = 64;
    assert_eq!(
        DmarTable::new(&long).unwrap_err(),
        DmarError::BadLength { claimed: 64, available: 48 }
    );
    let mut short = acpi_table(b"DMAR", 48, &[], &[]);
    short[4] = 47;
    assert_eq!(
        DmarTable::new(&short).unwrap_err(),
        DmarError::BadLength { claimed: 47, available: 48 }
    );

    let mut bad = acpi_table(b"DMAR", 48, &[], &[]);
    bad[20] ^= 1;
    assert_eq!(DmarTable::new(&bad).unwrap_err(), DmarError::BadChecksum);
}

#[test]
fn scope_type_codes() {
    assert_eq!(ScopeType::from(1), ScopeType::PciEndpoint);
    assert_eq!(ScopeType::from(2), ScopeType::PciSubhierarchy);
    assert_eq!(ScopeType::from(3), ScopeType::Ioapic);
    assert_eq!(ScopeType::from(4), ScopeType::MsiCapableHpet);
    assert_eq!(ScopeType::from(5), ScopeType::AcpiNamespaceDevice);
    assert_eq!(ScopeType::from(0), ScopeType::Reserved(0));
    assert_eq!(ScopeType::from(0x80), ScopeType::Reserved(0x80));
}

#[test]
fn device_scope_without_path_has_no_source_id() {
    let body = vec![0u8, 0, 22, 0, 0, 0, 0, 0, 0, 0, 0, 0, 0, 0, 0, 0, 4, 6, 0, 0, 0, 0];
    let raw = acpi_table(b"DMAR", 48, &[], &body);
    let dmar = DmarTable::new(&raw).unwrap();
    let d = dmar.drhd_units()[0];
    let s = d.scopes().next().unwrap();
    assert_eq!(s.ty, ScopeType::MsiCapableHpet);
    assert!(s.path.is_empty());
    assert_eq!(s.first_source_id(), None);
    assert!(s.path_pairs().is_empty());
}
