use iommu::amd::ivrs::IvrsError;
use iommu::amd::pagetables::WalkError as AmdWalkError;
use iommu::intel::context::AddrWidth;
use iommu::intel::dmar::DmarError;
use iommu::intel::fault::FaultReason;
use iommu::intel::irte::DeliveryMode;
use iommu::intel::pagetables::WalkError;
use iommu::intel::qi::QiType;

#[test]
fn ivrs_error_texts() {
    assert_eq!(IvrsError::TooShort { len: 12 }.describe(), "IVRS table too short: 12 bytes");
    assert_eq!(
        IvrsError::BadSignature(*b"IVRX").describe(),
        "bad IVRS signature: [49, 56, 52, 58]"
    );
    assert_eq!(
        IvrsError::BadSignature([0, 0x0a, 0xff, 0x10]).describe(),
        "bad IVRS signature: [00, 0a, ff, 10]"
    );
    assert_eq!(
        IvrsError::BadLength { claimed: 300, available: 44 }.describe(),
        "bad length: claimed 300, available 44"
    );
    assert_eq!(IvrsError::BadChecksum.describe(), "checksum mismatch");
}

#[test]
fn dmar_error_texts() {
    assert_eq!(DmarError::TooShort { len: 0 }.describe(), "DMAR table too short: 0 bytes");
    assert_eq!(
        DmarError::BadSignature(*b"DMAX").describe(),
        "bad DMAR signature: [44, 4d, 41, 58]"
    );
    assert_eq!(
        DmarError::BadLength { claimed: 4294967295, available: 1000 }.describe(),
        "bad length: claimed 4294967295, available 1000"
    );
    assert_eq!(DmarError::BadChecksum.describe(), "checksum mismatch");
}

#[test]
fn walk_error_texts() {
    assert_eq!(WalkError::NotPresent { level: 4 }.describe(), "not present at level 4");
    assert_eq!(
        WalkError::AddressTooLarge { bits: 48 }.describe(),
        "address exceeds 48-bit table width"
    );
    assert_eq!(AmdWalkError::NotPresent { level: 1 }.describe(), "not present at level 1");
    assert_eq!(
        AmdWalkError::AddressTooLarge { bits: 57 }.describe(),
        "address exceeds 57-bit table width"
    );
}

#[test]
fn addr_width_texts() {
    assert_eq!(AddrWidth::Agaw39.describe(), "39-bit (3-level)");
    assert_eq!(AddrWidth::Agaw48.describe(), "48-bit (4-level)");
    assert_eq!(AddrWidth::Agaw57.describe(), "57-bit (5-level)");
    assert_eq!(AddrWidth::Reserved0.describe(), "reserved (0)");
    assert_eq!(AddrWidth::from_bits(6).describe(), "reserved (6)");
}

#[test]
fn delivery_mode_texts() {
    assert_eq!(DeliveryMode::Fixed.describe(), "fixed");
    assert_eq!(DeliveryMode::LowestPriority.describe(), "lowest-priority");
    assert_eq!(DeliveryMode::Smi.describe(), "smi");
    assert_eq!(DeliveryMode::Nmi.describe(), "nmi");
    assert_eq!(DeliveryMode::Init.describe(), "init");
    assert_eq!(DeliveryMode::ExtInt.describe(), "extint");
    assert_eq!(DeliveryMode::Reserved(3).describe(), "reserved(3)");
    assert_eq!(DeliveryMode::Reserved(200).describe(), "reserved(200)");
}

#[test]
fn qi_type_texts() {
    assert_eq!(QiType(QiType::CONTEXT_CACHE).describe(), "context-cache invalidate");
    assert_eq!(QiType(QiType::IOTLB).describe(), "IOTLB invalidate");
    assert_eq!(QiType(QiType::DEVICE_TLB).describe(), "device-TLB invalidate");
    assert_eq!(
        QiType(QiType::INTERRUPT_ENTRY_CACHE).describe(),
        "interrupt entry cache invalidate"
    );
    assert_eq!(QiType(QiType::WAIT).describe(), "invalidation wait");
    assert_eq!(QiType(QiType::PASID_IOTLB).describe(), "PASID-based IOTLB invalidate");
    assert_eq!(QiType(QiType::PASID_CACHE).describe(), "PASID-cache invalidate");
    assert_eq!(
        QiType(QiType::PASID_DEVICE_TLB).describe(),
        "PASID-based device-TLB invalidate"
    );
    assert_eq!(QiType(QiType::PAGE_GROUP_RESPONSE).describe(), "page group response");
    assert_eq!(QiType(0x7f).describe(), "unknown (0x7f)");
    assert_eq!(QiType(0).describe(), "unknown (0x0)");
}

#[test]
fn fault_reason_texts() {
    assert_eq!(FaultReason::NoFault.describe(), "no fault");
    assert_eq!(FaultReason::RootEntryPresent.describe(), "root entry not present");
    assert_eq!(FaultReason::PagingEntryRsvd.describe(), "paging entry reserved bits");
    assert_eq!(FaultReason::IrteRsvd.describe(), "IRTE reserved bits");
    assert_eq!(FaultReason::SmInterruptAddr.describe(), "output in interrupt address range");
    assert_eq!(FaultReason::Other(0x0a).describe(), "fault reason 0x0a");
    assert_eq!(FaultReason::Other(0xfe).describe(), "fault reason 0xfe");
    // A decoded reason describes itself by its name.
    assert_eq!(FaultReason::from_bits(0x06).describe(), "paging entry reserved bits");
}
