use iommu::amd::cmd::{Command, CompletionWait};
use iommu::amd::dte::{DeviceTableEntry, PagingMode};
use iommu::amd::events::{Event, PageFaultEvent};
use iommu::amd::irte::Irte as AmdIrte;
use iommu::amd::ivrs::{EntryType, IvrsTable};
use iommu::amd::pagetables::{walk as amd_walk, Format, Perm as AmdPerm};
use iommu::amd::ppr::{PprCode, PprEntry};
use iommu::amd::regs::{CommandBufferBase, Control};
use iommu::intel::context::{AddrWidth, ContextEntry, TransType};
use iommu::intel::dmar::{DmarTable, RemapStruct};
use iommu::intel::fault::{FaultReason, FaultRecord};
use iommu::intel::irte::{DeliveryMode, Irte, IrteMode};
use iommu::intel::pagetables::{walk, MapRange, Perm, Stage};
use iommu::intel::qi::{Granularity, QiCc, QiDesc};

#[test]
fn completion_wait_store_example() {
    // Completion wait storing a semaphore value at 0x1234_5008.
    let cmd = Command::CompletionWait(CompletionWait::new().with_store(0x1234_5008, 1));
    let words: [u32; 4] = cmd.words();
    assert_eq!((words[1] >> 28) & 0xf, 0x1); // opcode
    assert_eq!(words[0] & 1, 1); // s = store
    assert_eq!(words[2], 1); // store data low
}

#[test]
fn dte_module_example() {
    let dte = DeviceTableEntry::new()
        .with_valid(true)
        .with_translation_valid(true)
        .with_paging_mode(PagingMode::Level2_4)
        .with_host_page_table_root(0x1234_5000)
        .with_io_coherent(true)
        .with_iw(true)
        .with_ir(true);

    assert!(dte.valid() && dte.translation_valid());
    assert_eq!(dte.paging_mode(), PagingMode::Level2_4);
    assert_eq!(dte.host_page_table_root(), 0x1234_5000);

    // Interrupt remapping: 1024-entry table at 0x00aa_c000.
    let dte = dte
        .with_interrupt_map_valid(true)
        .with_interrupt_table_len(10)
        .with_interrupt_table_ptr(0x00aa_c000);
    assert_eq!(dte.interrupt_table_len(), 10);
    assert_eq!(dte.interrupt_table_ptr(), 0x00aa_c000);
}

#[test]
fn page_fault_event_example() {
    let pf = PageFaultEvent {
        device_id: 0x1234,
        domain_id: 5,
        addr: 0xdead_b000,
        write: true,
        ..PageFaultEvent::default()
    };
    let words = Event::PageFault(pf).words();
    assert_eq!((words[1] >> 28) & 0xf, 0x2); // IO_PAGE_FAULT
    assert_eq!(words[0] & 0xffff, 0x1234);
}

#[test]
fn amd_irte_example() {
    let irte = AmdIrte::new().with_destination(0x0102_0304).with_vector(0x51).with_valid(true);

    let words: [u32; 4] = irte.words();
    assert_eq!(words[0] & 1, 0); // dword 0 holds the low destination id
    assert_eq!(words[0] & 0xffff, 0x0304); // destination[15:0]
    assert_eq!(words[1] & 0xff, 0x02); // destination[23:16]
    assert_eq!(words[1] & (1 << 16), 1 << 16); // valid
    assert_eq!(words[2] & 0xff, 0x51); // vector
}

/// Minimal IVRS with a type-10h IVHD header, no device entries.
const IVRS: &[u8] = &[
    b'I', b'V', b'R', b'S', 65, 0, 0, 0, 1, 0x72, // sig, len(u32), rev, cksum
    b'A', b'M', b'D', b' ', b' ', b' ', // OEM id
    b'I', b'V', b'R', b'S', b' ', b' ', b' ', b' ', // OEM table id
    0, 0, 0, 0, 0, 0, 0, 0, 0, 0, 0, 0, // OEM rev, creator id/rev
    0, 0, 0, 0, 0, 0, 0, 0, // IVInfo + reserved
    // IVHD type 10h: type, flags, length(u16) = 21, iommu id
    0x10, 0, 21, 0, 0,
    // PCI segment (2), base address (8) = 0xfed8_0000
    0, 0, 0x00, 0x00, 0xd8, 0xfe, 0, 0, 0, 0,
    // device range (2)
    0, 0,
    // capability dword (4)
    0xff, 0x18, 0, 0,
];

#[test]
fn ivrs_module_example() {
    let ivrs = IvrsTable::new(IVRS).unwrap();
    let hd = ivrs.ivhd_units().into_iter().next().unwrap();
    assert_eq!(hd.entry_type(), EntryType::IvhdType10);
    assert_eq!(hd.base_address(), 0xfed8_0000);
}

#[test]
fn amd_crate_example() {
    let dte = DeviceTableEntry::new()
        .with_valid(true)
        .with_translation_valid(true)
        .with_paging_mode(PagingMode::Level2_4)
        .with_host_page_table_root(0x1234_5000);

    assert!(dte.valid());
    assert_eq!(dte.host_page_table_root(), 0x1234_5000);
}

#[test]
fn amd_walk_example() {
    // v2 (AMD64-style) 4-level tree: PML4 -> PDPT -> PD -> PT.
    let fetch = |paddr: u64| -> u64 {
        match paddr {
            0x1000 => 0x2000 | AmdPerm::P_RW | 1, // PML4[0] -> PDPT, present
            0x2000 => 0x3000 | AmdPerm::P_RW | 1, // PDPT[0] -> PD
            0x3000 => 0x4000 | AmdPerm::P_RW | 1, // PD[0] -> PT
            0x4000 => 0x1234_5000 | AmdPerm::P_RW | 1, // PT[0]: 4 KiB RW page
            _ => 0,
        }
    };

    let r = amd_walk(Format::V2, 4, 0x1000, 0x123, &fetch).unwrap();
    assert_eq!(r.physical, 0x1234_5000 + 0x123);
    assert_eq!(r.level, 1);
}

#[test]
fn ppr_entry_example() {
    let e = PprEntry {
        device_id: 0x1234,
        pasid: 0x5a,
        ppr_tag: 0x7,
        addr: 0x1234_5000,
        ..PprEntry::default()
    };
    let words = e.words();
    assert_eq!((words[1] >> 28) & 0xf, PprCode::PAGE_SERVICE_REQUEST as u32);
    assert_eq!(words[0] & 0xffff, 0x1234);
    assert_eq!(words[0] >> 16, 0x5a); // PASID[15:0]
}

#[test]
fn command_buffer_base_example() {
    // 512-entry (8 KiB) command buffer at 0x1234_5000.
    let cbba = CommandBufferBase::new(0x1234_5000, 0x9);
    assert_eq!(cbba.base(), 0x1234_5000);
    assert_eq!(cbba.length_order(), 0x9);
    assert_eq!(cbba.size_bytes(), 8192);

    let ctrl = Control::new(0).with_cmd_buf_en(true).with_iommu_en(true);
    assert!(ctrl.contains(Control::CMD_BUF_EN | Control::IOMMU_EN));
}

#[test]
fn legacy_context_example() {
    // A legacy context entry mapping domain 5 via a 4-level second-stage
    // table at physical 0x12345000.
    let ce = ContextEntry::new()
        .with_domain_id(5)
        .with_address_width(AddrWidth::Agaw48)
        .with_second_stage_ptr(0x1234_5000)
        .with_translation_type(TransType::SecondStage)
        .with_present(true);
    assert!(ce.present());
    assert_eq!(ce.domain_id(), 5);

    // Raw wire form, ready to be stored into the context table.
    let raw: [u8; 16] = ce.into_bytes();
    assert_eq!(raw[0] & 1, 1);
}

const DMAR_WITH_DRHD: &[u8] = &[
    b'D', b'M', b'A', b'R', 64, 0, 0, 0, // sig + length (u32) = 64
    1, 0xBD, // revision, checksum
    b'O', b'E', b'M', b' ', b' ', b' ', // OEM id
    b'T', b'B', b'L', b' ', b' ', b' ', b' ', b' ', // OEM table id
    0, 0, 0, 0, 0, 0, 0, 0, 0, 0, 0, 0, // OEM rev, creator id/rev
    52 - 1, 0, // HAW (52-bit), flags
    0, 0, 0, 0, 0, 0, 0, 0, 0, 0, // reserved[10]
    // DRHD: type=0, length=16, flags=0, size=1, segment=0, base=0xfed90000
    0, 0, 16, 0, 0, 1, 0, 0, 0x00, 0x00, 0xd9, 0xfe, 0, 0, 0, 0,
];

#[test]
fn dmar_module_example() {
    let dmar = DmarTable::new(DMAR_WITH_DRHD).unwrap();
    assert_eq!(dmar.host_address_width(), 52);
    let mut it = dmar.structs();
    let mut seen = 0;
    while let Some(s) = it.next() {
        if let RemapStruct::Drhd(drhd) = s {
            assert_eq!(drhd.register_base(), 0xfed90000);
            assert_eq!(drhd.segment(), 0);
            seen += 1;
        }
    }
    assert_eq!(seen, 1);
}

#[test]
fn fault_record_example() {
    let fr = FaultRecord::new()
        .with_source_id(0x0bad)
        .with_reason(FaultReason::PagingEntryRsvd)
        .with_fault_info(0x1234_5000)
        .with_fault(true);

    let raw: [u64; 2] = fr.words();
    assert_eq!(raw[1] & 0xffff, 0x0bad); // SID (bits 79:64)
    assert_eq!((raw[1] >> 32) & 0xff, 0x06); // FR (bits 103:96)

    let back = FaultRecord::from_words(raw[0], raw[1]);
    assert_eq!(back.reason(), FaultReason::PagingEntryRsvd);
    assert!(back.fault());
}

#[test]
fn remapped_irte_example() {
    let irte = Irte::new_remapped()
        .with_destination(0x1234_5678) // x2APIC destination
        .with_vector(0x40)
        .with_delivery_mode(DeliveryMode::Fixed)
        .with_source_id(0x0bad)
        .with_present(true);

    assert_eq!(irte.mode(), IrteMode::Remapped);
    assert_eq!(irte.vector(), 0x40);
    assert_eq!(irte.destination_id(), 0x1234_5678);

    let words: [u64; 2] = irte.words();
    assert_eq!(words[0] & 1, 1);
}

const DMAR_HEADER_ONLY: &[u8] = &[
    // Signature "DMAR"
    b'D', b'M', b'A', b'R',
    // Length = 48 (header only)
    48, 0, 0, 0,
    // Revision, Checksum (byte sum of the table is 0 mod 256)
    1, 55,
    // OEM ID, OEM Table ID
    b'O', b'E', b'M', b' ', b' ', b' ', 0, 0, 0, 0, 0, 0, 0, 0,
    // OEM Revision, Creator ID, Creator Revision
    0, 0, 0, 0, 0, 0, 0, 0, 0, 0, 0, 0,
    // Host Address Width: bits 51:0 -> HAW 52
    52 - 1,
    // Flags
    0,
    // Reserved[10]
    0, 0, 0, 0, 0, 0, 0, 0, 0, 0,
];

#[test]
fn intel_crate_example() {
    let dmar = DmarTable::new(DMAR_HEADER_ONLY).unwrap();
    assert_eq!(dmar.host_address_width(), 52);
    assert!(dmar.structs().next().is_none());
}

#[test]
fn second_stage_walk_example() {
    // A 4-level second-stage tree: PML4 @ 0x1000 -> PDPT @ 0x2000 ->
    // PD @ 0x3000 -> PT @ 0x4000, where PT[0] maps GPA 0 to HPA
    // 0x1234_5000 as a 4 KiB read-write page.
    let fetch = |paddr: u64| -> u64 {
        match paddr {
            0x1000 => 0x2000 | Perm::RW | 1,
            0x2000 => 0x3000 | Perm::RW | 1,
            0x3000 => 0x4000 | Perm::RW | 1,
            0x4000 => 0x1234_5000 | Perm::RW | 1,
            _ => 0,
        }
    };

    let r = walk(Stage::Second, 4, 0x1000, 0x123, &fetch).unwrap();
    assert_eq!(r.physical, 0x1234_5000 + 0x123); // frame | page offset
    assert_eq!(r.level, 1);
    assert!(r.perms.contains(Perm::RW));
}

#[test]
fn map_range_example() {
    let m = MapRange { guest_base: 0x1000, host_base: 0x9000, len: 0x3000, perms: Perm(Perm::R | Perm::W) };
    let mut n = 0;
    for (gpa, hpa, pte) in m.leaves() {
        let _ = (gpa, hpa, pte);
        n += 1;
    }
    assert_eq!(n, 3);
}

#[test]
fn context_cache_descriptor_example() {
    let d = QiDesc::ContextCache(QiCc::new(Granularity::Domain, 7, 0x1234, 0));
    let raw: [u64; 2] = d.words();
    // Type 1h in bits 11:9 | 3:0 of the first word.
    assert_eq!(((raw[0] >> 5) & 0x70) | (raw[0] & 0xf), 1);
    // DID = 7 at bits 31:16.
    assert_eq!((raw[0] >> 16) & 0xffff, 7);
}
