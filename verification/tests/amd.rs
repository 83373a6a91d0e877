use iommu::amd::bits::extract_bits;
use iommu::amd::cmd::{Command, CompletionWait, InvalidateIommuPages, InvalidateIotlbPages, Opcode};
use iommu::amd::dte::{DeviceTableEntry, PagingMode};
use iommu::amd::events::{Event, EventCode, PageFaultEvent};
use iommu::amd::irte::Irte;
use iommu::amd::pagetables::{v1_page, v2_page, v2_table, walk, Format, Perm, WalkError};
use iommu::amd::ppr::{PprCode, PprEntry};
use iommu::amd::regs::{BufferBase, Control};

#[test]
fn extracts_fields() {
    assert_eq!(extract_bits(0b1010_0001, 7, 0), 0b1010_0001);
    assert_eq!(extract_bits(0b1010_0001, 7, 7), 1);
    assert_eq!(extract_bits(0x0123_4567_89ab_cdef, 63, 32), 0x0123_4567);
    assert_eq!(
        extract_bits(0x0123_4567_89ab_cdef, 51, 12),
        (0x0123_4567_89ab_cdef >> 12) & 0xff_ff_ff_ff_ff
    );
}

#[test]
fn completion_wait_encoding() {
    let cmd = Command::CompletionWait(CompletionWait::new().with_store(0x1_2345_6008, 1));
    let w = cmd.words();
    assert_eq!(Opcode::from_dword1(w[1]), Opcode(Opcode::COMPLETION_WAIT));
    assert_eq!(w[0] & 0x7, 0x1); // s=1
    // store addr bits 31:3 in dword0[31:3]
    assert_eq!((w[0] >> 3) & 0x1fff_ffff, (0x1_2345_6008u64 >> 3) as u32 & 0x1fff_ffff);
    // store addr bits 51:32 in dword1[19:0]
    assert_eq!(w[1] & 0xf_ffff, 0x1);
    assert_eq!(w[2], 1);
}

#[test]
fn invalidate_pages_encoding() {
    let c = InvalidateIommuPages {
        domain_id: 7,
        addr: 0xdead_b000,
        pde: true,
        ..InvalidateIommuPages::default()
    };
    let w = Command::InvalidateIommuPages(c).words();
    assert_eq!(Opcode::from_dword1(w[1]), Opcode(Opcode::INVALIDATE_IOMMU_PAGES));
    assert_eq!(w[1] & 0xffff, 7);
    assert_eq!(w[2] & 0x7, 0x2); // PDE only
    assert_eq!((w[2] >> 12) & 0xf_ffff, (0xdead_b000 >> 12) & 0xf_ffff);
    assert_eq!(w[3], 0);
}

#[test]
fn invalidate_iotlb_pages_encoding() {
    let c = InvalidateIotlbPages {
        device_id: 0x1234,
        queue_id: 0x99,
        pasid: 0x5_a5a5,
        max_pend: 0x10,
        addr: 0x1_2345_6000,
        ..InvalidateIotlbPages::default()
    };
    let w = Command::InvalidateIotlbPages(c).words();
    assert_eq!(Opcode::from_dword1(w[1]), Opcode(Opcode::INVALIDATE_IOTLB_PAGES));
    assert_eq!(w[0] & 0xffff, 0x1234);
    assert_eq!((w[0] >> 16) & 0xff, 0xa5); // PASID[15:8]
    assert_eq!((w[0] >> 24) & 0xff, 0x10); // Maxpend
    assert_eq!(w[1] & 0xffff, 0x99); // QueueID
    assert_eq!((w[1] >> 16) & 0xff, 0xa5); // PASID[7:0]
    assert_eq!((w[1] >> 24) & 0xf, 0x5); // PASID[19:16]
    assert_eq!((w[2] >> 12) & 0xf_ffff, 0x2_3456);
}

#[test]
fn dte_roundtrip() {
    let dte = DeviceTableEntry::new()
        .with_valid(true)
        .with_translation_valid(true)
        .with_paging_mode(PagingMode::Level2_5)
        .with_host_page_table_root(0x1234_5678_9000)
        .with_ppr_enable(true)
        .with_guest_translation_valid(true)
        .with_ir(true);
    assert!(dte.valid());
    assert_eq!(dte.paging_mode(), PagingMode::Level2_5);
    assert_eq!(dte.host_page_table_root(), 0x1234_5678_9000);
    assert!(dte.ppr_enable());
    assert!(dte.guest_translation_valid());
    assert!(dte.ir());
    // V and TV are the low two bits.
    assert_eq!(dte.q0 & 0x3, 0x3);
    assert_eq!(extract_bits(dte.q0, 11, 9), 6);
}

#[test]
fn gcr3_packing() {
    // The GCR3 root pointer is stored with 4 KiB granularity.
    let ptr = 0x1234_5000;
    let dte = DeviceTableEntry::new()
        .with_guest_translation_valid(true)
        .with_guest_cr3_table(ptr);
    assert_eq!(dte.guest_cr3_table(), ptr);
}

#[test]
fn interrupt_table_fields() {
    let dte = DeviceTableEntry::new()
        .with_interrupt_map_valid(true)
        .with_interrupt_table_len(10)
        .with_interrupt_table_ptr(0x00aa_c000);
    assert!(dte.interrupt_map_valid());
    assert_eq!(dte.interrupt_table_len(), 10);
    assert_eq!(dte.interrupt_table_ptr(), 0x00aa_c000);
}

#[test]
fn page_fault_roundtrip() {
    let e = Event::PageFault(PageFaultEvent {
        device_id: 0x0bad,
        domain_id: 0x12,
        addr: 0x1234_5678_9000,
        write: true,
        permission: true,
        ..PageFaultEvent::default()
    });
    let w = e.words();
    assert_eq!(EventCode::from_dword1(w[1]), EventCode(EventCode::IO_PAGE_FAULT));
    match Event::from_words(w) {
        Event::PageFault(f) => {
            assert_eq!(f.device_id, 0x0bad);
            assert_eq!(f.domain_id, 0x12);
            assert_eq!(f.addr, 0x1234_5678_9000);
            assert!(f.write && f.permission);
            assert!(!f.nx);
        }
        other => panic!("unexpected {other:?}"),
    }
}

#[test]
fn irte_roundtrip() {
    let irte = Irte::new().with_valid(true).with_destination(0x0001_0203).with_vector(0x51);
    assert!(irte.valid());
    assert_eq!(irte.destination(), 0x0001_0203);
    assert_eq!(irte.vector(), 0x51);
    let w = irte.words();
    assert_eq!(w[0] & 0xffff, 0x0203);
    assert_eq!(w[1] & 0xff, 0x01);
    assert_eq!(extract_bits(w[1] as u64, 16, 16), 1);
}

#[test]
fn walks_v2_leaf() {
    let fetch = |p: u64| match p {
        0x1000 => v2_table(0x2000),
        0x2000 => v2_table(0x3000),
        0x3000 => v2_table(0x4000),
        0x4000 => v2_page(0x1234_5000, true, false),
        _ => 0,
    };
    let r = walk(Format::V2, 4, 0x1000, 0x123, &fetch).unwrap();
    assert_eq!(r.physical, 0x1234_5000 + 0x123);
    assert_eq!(r.level, 1);
    assert!(r.perms.contains(Perm::P | Perm::RW));
}

#[test]
fn walks_v1_huge_page() {
    // v1: IR/IW permission layout, 2 MiB page at level 2. With a 2-level
    // tree the top table entry itself is the huge-page leaf.
    let fetch = |p: u64| match p {
        0x1000 => v1_page(0x1_0000_0000, true, true) | Perm::PS,
        _ => 0,
    };
    // iova within the first 2 MiB so the level-2 index is 0.
    let r = walk(Format::V1, 2, 0x1000, 0x123_456, &fetch).unwrap();
    assert_eq!(r.level, 2);
    assert!(r.huge);
    assert_eq!(r.physical, 0x1_0000_0000 | (0x123_456 & 0x1f_ffff));
}

#[test]
fn not_present_reported() {
    let fetch = |_p: u64| 0u64;
    let e = walk(Format::V2, 4, 0x1000, 0, &fetch).unwrap_err();
    assert_eq!(e, WalkError::NotPresent { level: 4 });
}

#[test]
fn v2_range_check() {
    let fetch = |_p: u64| 0u64;
    let e = walk(Format::V2, 4, 0x1000, 1u64 << 48, &fetch).unwrap_err();
    assert_eq!(e, WalkError::AddressTooLarge { bits: 48 });
}

#[test]
fn ppr_roundtrip() {
    let e = PprEntry {
        device_id: 0x0bad,
        pasid: 0x5_a5a5 & 0xf_ffff,
        ppr_tag: 0x1f,
        addr: 0x0000_1234_5000,
        write: true,
        ..PprEntry::default()
    };
    let w = e.words();
    match PprCode::from_dword1(w[1]).0 {
        PprCode::PAGE_SERVICE_REQUEST => {}
        other => panic!("bad code {other:?}"),
    }
    let back = PprEntry::from_words(w);
    assert_eq!(back.device_id, 0x0bad);
    assert_eq!(back.pasid, e.pasid);
    assert_eq!(back.ppr_tag, 0x1f);
    assert_eq!(back.addr, 0x1234_5000);
    assert!(back.write);
    assert!(!back.read);
}

#[test]
fn buffer_base_encoding() {
    let b = BufferBase::new(0x1234_5000, 0x9);
    assert_eq!(b.base(), 0x1234_5000);
    assert_eq!(b.size_bytes(), 8192);
    // 512-entry device table: 2^(9+1).
    assert_eq!(b.entry_count(), 1024);
}

#[test]
fn control_roundtrip() {
    let c = Control::new(0)
        .with_iommu_en(true)
        .with_cmd_buf_en(true)
        .with_invalidation_timeout(3);
    assert!(c.contains(Control::IOMMU_EN | Control::CMD_BUF_EN));
    assert_eq!(c.invalidation_timeout(), 3);
}
