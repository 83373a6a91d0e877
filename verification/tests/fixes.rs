use iommu::amd::dte::DeviceTableEntry;
use iommu::amd::ivrs::IvrsTable;
use iommu::intel::dmar::DmarTable;
use iommu::intel::fault::FaultReason;
use iommu::intel::pagetables::{first_stage_leaf, walk, MapRange, Perm, SecondStagePte, Stage, WalkError};
use iommu::intel::qi::{Granularity, QiCc, QiDesc, QiDevPiotlb, QiIotlb, QiWait};
use std::cell::Cell;

fn acpi_table(sig: &[u8; 4], header_len: usize, body: &[u8]) -> Vec<u8> {
    let total = header_len + body.len();
    let mut t = vec![0u8; header_len];
    t[0..4].copy_from_slice(sig);
    t[4..8].copy_from_slice(&(total as u32).to_le_bytes());
    t.extend_from_slice(body);
    let sum = t.iter().fold(0u8, |a, b| a.wrapping_add(*b));
    t[9] = 0u8.wrapping_sub(sum);
    t
}

#[test]
fn host_root_keeps_the_high_flags() {
    let dte = DeviceTableEntry::new()
        .with_ir(true)
        .with_iw(true)
        .with_ppr_enable(true)
        .with_host_page_table_root(0x1234_5678_9000)
        .with_host_page_table_root(0);
    assert!(dte.ir());
    assert!(dte.iw());
    assert!(dte.ppr_enable());
    assert_eq!(dte.host_page_table_root(), 0);
}

#[test]
fn interrupt_table_pointer_uses_the_whole_field() {
    let high = 0x000f_ffff_ffff_ff80u64;
    let dte = DeviceTableEntry::new()
        .with_interrupt_map_valid(true)
        .with_guest_paging_mode(1)
        .with_interrupt_table_ptr(high);
    assert_eq!(dte.interrupt_table_ptr(), high);
    assert!(dte.interrupt_map_valid());
    assert_eq!(dte.guest_paging_mode(), 1);
    let dte = dte.with_interrupt_table_ptr(0x200_0000_0080);
    assert_eq!(dte.interrupt_table_ptr(), 0x200_0000_0080);
}

#[test]
fn first_stage_leaf_sets_intel64_accessed_dirty() {
    assert_eq!(first_stage_leaf(0x1000, false, false), 0x1000 | 0x60 | 1);
    assert_eq!(first_stage_leaf(0xabc_d123, true, true), 0xabc_d000 | 0x60 | 0x4 | 0x2 | 1);
}

#[test]
fn second_stage_page_keeps_execute() {
    let pte = SecondStagePte::page(0x5000, Perm(Perm::RWX));
    assert_eq!(pte.0 & 0x7, 0x7);
    assert!(pte.perms().contains(Perm::RWX));
    assert_eq!(pte.perms().rxw(), 7);
    assert!(!pte.perms().contains(Perm::PAGE_SIZE));
    let ro = SecondStagePte::page(0x5000, Perm(Perm::X));
    assert_eq!(ro.0 & 0x7, 0x5);
}

#[test]
fn map_range_leaf_matches_the_list() {
    let m = MapRange { guest_base: 0x1000, host_base: 0x9000, len: 0x2001, perms: Perm(Perm::RWX) };
    let all = m.leaves();
    assert_eq!(all.len(), 3);
    for (i, leaf) in all.iter().enumerate() {
        assert_eq!(m.leaf(i as u64), *leaf);
    }
    assert_eq!(m.leaf(2).2, SecondStagePte::page(0xb000, Perm(Perm::RWX)));
}

#[test]
fn pasid_device_tlb_keeps_its_first_word_pair() {
    let d = QiDesc::PasidDevTlb(QiDevPiotlb::new(false, 0x1234, 0xdead_b000, true, 0x0bad, 0x0bad));
    let w4 = d.words4();
    assert_eq!(d.words(), [w4[0], w4[1]]);
    assert_ne!(d.words(), [0, 0]);
}

#[test]
fn fault_reasons_order_by_code() {
    assert!(FaultReason::IrRequestRsvd < FaultReason::PasidDirAccess);
    assert!(FaultReason::RtaddrInvalidTtm < FaultReason::SmContextEntryPresent);
    assert!(FaultReason::SmInterruptAddr < FaultReason::Other(0));
    let mut all: Vec<FaultReason> = (0u8..=255).map(FaultReason::from_bits).collect();
    all.sort();
    let named: Vec<u8> =
        all.iter().filter(|r| !matches!(r, FaultReason::Other(_))).map(|r| r.bits()).collect();
    assert!(named.windows(2).all(|w| w[0] < w[1]));
}

#[test]
fn next_of_a_kind_skips_other_structures() {
    let mut body = vec![1u8, 0, 24, 0, 0, 0, 0, 0];
    body.extend_from_slice(&[0u8; 16]); // RMRR
    body.extend_from_slice(&[0, 0, 16, 0, 0, 0, 0, 0, 0, 0x10, 0, 0, 0, 0, 0, 0]); // DRHD
    body.extend_from_slice(&[9, 0, 4, 0]); // unknown
    body.extend_from_slice(&[0, 0, 16, 0, 0, 0, 1, 0, 0, 0x20, 0, 0, 0, 0, 0, 0]); // DRHD
    let raw = acpi_table(b"DMAR", 48, &body);
    let dmar = DmarTable::new(&raw).unwrap();
    let mut it = dmar.structs();
    assert_eq!(it.next_drhd().unwrap().register_base(), 0x1000);
    let second = it.next_drhd().unwrap();
    assert_eq!(second.register_base(), 0x2000);
    assert_eq!(second.segment(), 1);
    assert!(it.next_drhd().is_none());

    let mut ivrs_body = vec![0x20u8, 0, 32, 0];
    ivrs_body.extend_from_slice(&[0u8; 28]); // IVMD
    ivrs_body.extend_from_slice(&[0x40, 0, 8, 0, 7, 0, 0, 0]); // short IVHD 40h
    let raw = acpi_table(b"IVRS", 44, &ivrs_body);
    let ivrs = IvrsTable::new(&raw).unwrap();
    let mut blocks = ivrs.blocks();
    let hd = blocks.next_ivhd().unwrap();
    assert_eq!(hd.raw().len(), 8);
    assert_eq!(hd.iommu_id(), 7);
    assert!(blocks.next_ivhd().is_none());
    let mut blocks = ivrs.blocks();
    assert_eq!(blocks.next_ivmd().unwrap().raw().len(), 32);
    assert!(blocks.next_ivmd().is_none());
}

#[test]
fn four_word_form_starts_with_the_two_word_form() {
    for d in [
        QiDesc::ContextCache(QiCc::new(Granularity::Domain, 7, 0x1234, 1)),
        QiDesc::Iotlb(QiIotlb::new(Granularity::PageOrDevice, 9, 0xdead_beef_f000, 4)),
        QiDesc::Wait(QiWait::status_write(0x1000, 1)),
        QiDesc::PasidDevTlb(QiDevPiotlb::new(true, 5, 0x7000, false, 1, 2)),
    ] {
        let w = d.words();
        let w4 = d.words4();
        assert_eq!([w4[0], w4[1]], w);
        if !matches!(d, QiDesc::PasidDevTlb(_)) {
            assert_eq!([w4[2], w4[3]], [0, 0]);
        }
    }
}

#[test]
fn walk_outcome_holds_for_a_changing_fetch() {
    // A fetch over "live" memory: every call sees a present table entry
    // pointing to the next page, until the fourth call returns a leaf.
    let calls = Cell::new(0u64);
    let fetch = |_p: u64| {
        calls.set(calls.get() + 1);
        if calls.get() < 4 { 0x2000 | 1 } else { 0xabc_d000 | 1 }
    };
    let r = walk(Stage::Second, 4, 0x1000, 0x5678, &fetch).unwrap();
    assert_eq!(r.level, 1);
    assert!(!r.huge);
    assert_eq!(r.physical & 0xfff, 0x678);
    let e = walk(Stage::Second, 4, 0x1000, 1 << 50, &fetch).unwrap_err();
    assert_eq!(e, WalkError::AddressTooLarge { bits: 48 });
}
