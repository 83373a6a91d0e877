use iommu::amd::dte::{PagingMode, SysMgt};
use iommu::amd::events::{Event, EventCode, PageFaultEvent};
use iommu::amd::irte::Irte as AmdIrte;
use iommu::amd::ppr::PprEntry;
use iommu::bytes::{read_le16, read_le32, read_le64, wrapping_byte_sum};
use iommu::intel::context::{
    context_entry, entries_per_page, pasid_table_entry, root_entry, scalable_context_entry,
    AddrWidth, ContextEntry, Flpm, PasidTableEntry, Pgtt, RootEntry, TransType,
};
use iommu::intel::fault::{AddrType, FaultReason};
use iommu::intel::irte::{DeliveryMode, SourceQualifier, SourceValidationType};
use iommu::intel::qi::{
    type_bits, Granularity, QiCc, QiDesc, QiDevTlb, QiIec, QiIotlb, QiPc, QiPiotlb, QiType, QiWait,
};

#[test]
fn context_entry_bytes_read_back() {
    let ce = ContextEntry::new()
        .with_present(true)
        .with_domain_id(0xbeef)
        .with_address_width(AddrWidth::Agaw57)
        .with_second_stage_ptr(0x0012_3456_7000)
        .with_translation_type(TransType::PassThrough);
    let raw = ce.into_bytes();
    assert_eq!(context_entry(&raw), Some(ce));
    assert_eq!(context_entry(&raw[..15]), None);
    // A longer slice (such as a whole table) reads its first entry.
    let mut table = vec![0u8; 4096];
    table[..16].copy_from_slice(&raw);
    assert_eq!(context_entry(&table), Some(ce));
    assert_eq!(context_entry(&table[16..]), Some(ContextEntry { q0: 0, q1: 0 }));
}

#[test]
fn pasid_table_entry_bytes_read_back() {
    let pe = PasidTableEntry::new()
        .with_present(true)
        .with_pgtt(Pgtt::Nested)
        .with_page_table_ptr(0xabcd_e000)
        .with_domain_id(0x55)
        .with_flpm(Flpm::FourLevel);
    let raw = pe.into_bytes();
    assert_eq!(pasid_table_entry(&raw), Some(pe));
    assert_eq!(pasid_table_entry(&raw[..63]), None);
    let mut page = vec![0xffu8; 4096];
    page[..64].copy_from_slice(&raw);
    assert_eq!(pasid_table_entry(&page), Some(pe));
}

#[test]
fn root_and_scalable_entries_from_bytes() {
    let mut raw = [0u8; 16];
    raw[0..8].copy_from_slice(&0x0000_0000_1234_5001u64.to_le_bytes());
    raw[8..16].copy_from_slice(&0x0000_0000_0000_0000u64.to_le_bytes());
    let re = root_entry(&raw).unwrap();
    assert_eq!(re, RootEntry { low: 0x1234_5001, high: 0 });
    assert!(re.present());
    assert_eq!(re.context_table(), 0x1234_5000);
    assert_eq!(root_entry(&raw[1..]), None);
    let mut table = vec![0u8; 4096];
    table[..16].copy_from_slice(&raw);
    assert_eq!(root_entry(&table), Some(re));

    let mut sc = [0u8; 32];
    sc[0..8].copy_from_slice(&0x0000_0000_00ab_c001u64.to_le_bytes());
    sc[8..16].copy_from_slice(&0x0000_0000_0000_1234u64.to_le_bytes());
    let e = scalable_context_entry(&sc).unwrap();
    assert!(e.present());
    assert_eq!(e.rid_pasid(), 0x1234);
    assert_eq!(scalable_context_entry(&sc[..16]), None);
    let mut long = [0u8; 64];
    long[..32].copy_from_slice(&sc);
    assert_eq!(scalable_context_entry(&long), Some(e));
}

#[test]
fn amd_irte_from_bytes() {
    let irte = AmdIrte::new().with_valid(true).with_destination(0x00ab_cdef).with_vector(0x33);
    let w = irte.words();
    let mut raw = [0u8; 16];
    for (i, d) in w.iter().enumerate() {
        raw[4 * i..4 * i + 4].copy_from_slice(&d.to_le_bytes());
    }
    assert_eq!(AmdIrte::from_bytes(&raw), Some(irte));
    assert_eq!(AmdIrte::from_bytes(&raw[..12]), None);
    let mut table = [0u8; 32];
    table[..16].copy_from_slice(&raw);
    assert_eq!(AmdIrte::from_bytes(&table), Some(irte));
}

#[test]
fn entries_per_page_values() {
    assert_eq!(entries_per_page(16), 256);
    assert_eq!(entries_per_page(32), 128);
    assert_eq!(entries_per_page(64), 64);
}

#[test]
fn little_endian_reads() {
    let b = [0x01, 0x02, 0x03, 0x04, 0x05, 0x06, 0x07, 0x08, 0x09];
    assert_eq!(read_le16(&b, 1), 0x0302);
    assert_eq!(read_le32(&b, 0), 0x0403_0201);
    assert_eq!(read_le64(&b, 1), 0x0908_0706_0504_0302);
    assert_eq!(wrapping_byte_sum(&[0xff, 0x02, 0x10]), 0x11);
    assert_eq!(wrapping_byte_sum(&[]), 0);
}

#[test]
fn descriptor_type_roundtrip_all_codes() {
    for t in 0u8..=255 {
        assert_eq!(QiType::from_word0(type_bits(t)), QiType(t % 128));
    }
}

#[test]
fn descriptors_decode_their_own_words() {
    let cc = QiCc::new(Granularity::PageOrDevice, 0x1234, 0xabcd, 2);
    let [a, b] = cc.to_words();
    assert_eq!(QiCc::from_words(a, b), cc);

    let io = QiIotlb::new(Granularity::Domain, 9, 0xdead_beef_f000, 5);
    let [a, b] = io.to_words();
    assert_eq!(QiIotlb::from_words(a, b), io);

    let dt = QiDevTlb::new(0x0bad, 0x1234_5000, true);
    let [a, b] = dt.to_words();
    assert_eq!(QiDevTlb::from_words(a, b), dt);

    let iec = QiIec::new(false, 0x40, 3);
    let [a, b] = iec.to_words();
    assert_eq!(QiIec::from_words(a, b), iec);

    let wait = QiWait::status_write(0x1000, 7);
    let [a, b] = wait.to_words();
    assert_eq!(QiWait::from_words(a, b), wait);
    let fence = QiWait::fence();
    let [a, b] = fence.to_words();
    assert_eq!(QiWait::from_words(a, b), fence);

    let pc = QiPc::new(Granularity::PageOrDevice, 3, 0x8_0001);
    let [a, b] = pc.to_words();
    assert_eq!(QiPc::from_words(a, b), pc);

    let pio = QiPiotlb::new(Granularity::PageOrDevice, 3, 0x1_2345, 0x7000, 1);
    let [a, b] = pio.to_words();
    assert_eq!(QiPiotlb::from_words(a, b), pio);

    for d in [
        QiDesc::ContextCache(cc),
        QiDesc::Iotlb(io),
        QiDesc::DevTlb(dt),
        QiDesc::Iec(iec),
        QiDesc::Wait(wait),
        QiDesc::PasidCache(pc),
        QiDesc::PasidIotlb(pio),
    ] {
        let w = d.words();
        assert_eq!(QiDesc::from_words(w[0], w[1]), Some(d));
        assert_eq!(QiType::from_word0(w[0]), d.ty());
        assert_eq!(d.slot_count(), 1);
    }
}

#[test]
fn fault_reason_codes_roundtrip() {
    for v in 0u8..=255 {
        assert_eq!(FaultReason::from_bits(v).bits(), v);
    }
    assert_eq!(FaultReason::from_bits(FaultReason::IrEntryPresent.bits()), FaultReason::IrEntryPresent);
    assert_eq!(FaultReason::from_bits(0x0a), FaultReason::Other(0x0a));
}

#[test]
fn small_code_roundtrips() {
    for v in 0u8..=255 {
        assert_eq!(DeliveryMode::from_bits(v).bits(), v & 7);
        assert_eq!(AddrWidth::from_bits(v).bits(), v & 7);
        assert_eq!(Pgtt::from_bits(v).bits(), v & 7);
        assert_eq!(Flpm::from_bits(v).bits(), v & 3);
        assert_eq!(TransType::from_bits(v).bits(), v & 3);
        assert_eq!(AddrType::from_bits(v).bits(), v & 3);
        assert_eq!(PagingMode::from_bits(v).bits(), v & 7);
        assert_eq!(SysMgt::from_bits(v).bits(), v & 3);
        assert_eq!(SourceValidationType::from_bits(v).bits(), v & 3);
        assert_eq!(SourceQualifier::from_bits(v).bits(), v & 3);
    }
    assert_eq!(DeliveryMode::from_bits(DeliveryMode::ExtInt.bits()), DeliveryMode::ExtInt);
    assert_eq!(AddrWidth::from_bits(AddrWidth::Agaw39.bits()), AddrWidth::Agaw39);
    assert_eq!(PagingMode::from_bits(PagingMode::Level2_5.bits()), PagingMode::Level2_5);
}

#[test]
fn page_fault_event_roundtrip_cuts_fields() {
    let f = PageFaultEvent {
        device_id: 0x1234,
        domain_id: 0xfff_ffff,
        addr: 0x1234_5678_9abc,
        nx: true,
        ..PageFaultEvent::default()
    };
    match Event::from_words(Event::PageFault(f).words()) {
        Event::PageFault(g) => {
            assert_eq!(g.device_id, 0x1234);
            assert_eq!(g.domain_id, 0xf_ffff);
            assert_eq!(g.addr, 0x1234_5678_9000);
            assert!(g.nx);
        }
        other => panic!("unexpected {other:?}"),
    }
}

#[test]
fn raw_event_survives_decoding() {
    let words = [0x1234, (EventCode::ILLEGAL_DEVICE as u32) << 28, 0x5678, 0x9abc];
    let e = Event::from_words(words);
    assert_eq!(e, Event::Raw { code: EventCode(EventCode::ILLEGAL_DEVICE), words });
    assert_eq!(e.words(), words);
}

#[test]
fn ppr_roundtrip_keeps_the_20_bit_pasid() {
    let e = PprEntry { device_id: 1, pasid: 0x8_0001, addr: 0x5000, ..PprEntry::default() };
    let back = PprEntry::from_words(e.words());
    assert_eq!(back.pasid, 0x8_0001);
    let high = PprEntry { pasid: 0xf_ffff, ..PprEntry::default() };
    assert_eq!(PprEntry::from_words(high.words()).pasid, 0xf_ffff);
    assert_eq!(back.addr, 0x5000);
}
