//! Fault recording registers and fault reason codes.
//!
//! Non-recoverable faults are logged into 128-bit fault recording
//! registers located at `CAP.FRO * 16` (see
//! [`crate::intel::regs::fault_rec_offset`]).
use vstd::prelude::*;
use vstd::string::StringExecFns;

use crate::text::{hex2, push_hex2};
use crate::bitfield::{
    field,
    flag,
    get_field,
    get_flag,
    lemma_field_roundtrip,
    lemma_field_with_field_other,
    lemma_flag_with_flag,
    lemma_low_mask_mod,
    lemma_low_mask_values,
    put_field,
    put_flag,
    with_field,
    with_flag,
};
use crate::intel::bits::extract_bits;

verus! {

/// Fault reason (`FR`, bits 103:96) — the non-recoverable fault conditions,
/// with the numeric codes of the specification. The variants are declared
/// in the order of their codes, `Other` last, so the derived ordering
/// follows the codes.
#[derive(Copy, Clone, Debug, Default, PartialEq, Eq, PartialOrd, Ord, Structural)]
#[non_exhaustive]
pub enum FaultReason {
    /// `00h` — no fault / unspecified.
    #[default]
    NoFault,
    /// `01h` — root entry present bit 0.
    RootEntryPresent,
    /// `02h` — context entry present bit 0.
    ContextEntryPresent,
    /// `03h` — context entry hardware-implemented reserved bits.
    ContextEntryRsvd,
    /// `04h` — translation-type in present context-entry unsupported.
    ContextEntryTt,
    /// `05h` — second-level paging-entry present bit 0.
    PagingEntryPresent,
    /// `06h` — non-zero reserved bits in second-level paging entry.
    PagingEntryRsvd,
    /// `07h` — DMA request blocked (destination outside AGAW, write to read-only region etc.).
    AccessBlocked,
    /// `20h` — one or more reserved fields set in interrupt remapping request.
    IrRequestRsvd,
    /// `21h` — interrupt remapping index beyond table size.
    IrIndexOver,
    /// `22h` — present bit not set in IRTE.
    IrEntryPresent,
    /// `23h` — invalid interrupt remapping table address.
    IrRootInvalid,
    /// `24h` — reserved bits in present IRTE.
    IrteRsvd,
    /// `25h` — compatible format interrupt request while IR disabled.
    IrRequestCompat,
    /// `26h` — blocking of interrupt requests due to invalid SID.
    IrSourceId,
    /// `31h` — invalid translation table mode in RTADDR.
    RtaddrInvalidTtm,
    /// `47h` — scalable context entry present bit 0.
    SmContextEntryPresent,
    /// `50h` — PASID directory entry access failure.
    PasidDirAccess,
    /// `51h` — PASID directory entry present bit 0.
    PasidDirPresent,
    /// `58h` — PASID table entry access failure.
    PasidTableAccess,
    /// `59h` — PASID table entry present bit 0.
    PasidTablePresent,
    /// `5bh` — PASID table entry invalid (reserved bits set).
    PasidTableInvalid,
    /// `70h` — first-stage paging entry access failure.
    FsPagingEntryAccess,
    /// `71h` — first-stage paging entry present bit 0.
    FsPagingEntryPresent,
    /// `72h` — reserved bits set in present first-stage paging entry.
    FsPagingEntryRsvd,
    /// `73h` — invalid FSPTPTR in PASID table entry.
    FsptptrInvalid,
    /// `80h` — first-stage input address not canonical.
    FsNonCanonical,
    /// `81h` — privilege violation on first-stage access.
    FsPrivilege,
    /// `85h` — write access without write permission.
    SmWrite,
    /// `87h` — output address in interrupt address range (scalable).
    SmInterruptAddr,
    /// Any other / vendor-specific value.
    Other(u8),
}

/// The text that describes `r`.
pub open spec fn fault_reason_text(r: FaultReason) -> Seq<char> {
    match r {
        FaultReason::NoFault => "no fault"@,
        FaultReason::RootEntryPresent => "root entry not present"@,
        FaultReason::ContextEntryPresent => "context entry not present"@,
        FaultReason::ContextEntryRsvd => "context entry reserved bits"@,
        FaultReason::ContextEntryTt => "unsupported translation type"@,
        FaultReason::PagingEntryPresent => "paging entry not present"@,
        FaultReason::PagingEntryRsvd => "paging entry reserved bits"@,
        FaultReason::AccessBlocked => "DMA access blocked"@,
        FaultReason::PasidDirAccess => "PASID directory access failure"@,
        FaultReason::PasidDirPresent => "PASID directory entry not present"@,
        FaultReason::PasidTableAccess => "PASID table access failure"@,
        FaultReason::PasidTablePresent => "PASID table entry not present"@,
        FaultReason::PasidTableInvalid => "PASID table entry invalid"@,
        FaultReason::IrRequestRsvd => "IR request reserved fields"@,
        FaultReason::IrIndexOver => "IR index out of range"@,
        FaultReason::IrEntryPresent => "IRTE not present"@,
        FaultReason::IrRootInvalid => "invalid IR table address"@,
        FaultReason::IrteRsvd => "IRTE reserved bits"@,
        FaultReason::IrRequestCompat => "compat interrupt while IR disabled"@,
        FaultReason::IrSourceId => "interrupt source-id invalid"@,
        FaultReason::RtaddrInvalidTtm => "invalid TTM in RTADDR"@,
        FaultReason::SmContextEntryPresent => "scalable context entry not present"@,
        FaultReason::FsPagingEntryAccess => "first-stage entry access failure"@,
        FaultReason::FsPagingEntryPresent => "first-stage entry not present"@,
        FaultReason::FsPagingEntryRsvd => "first-stage entry reserved bits"@,
        FaultReason::FsptptrInvalid => "invalid FSPTPTR"@,
        FaultReason::FsNonCanonical => "non-canonical first-stage address"@,
        FaultReason::FsPrivilege => "first-stage privilege violation"@,
        FaultReason::SmWrite => "write without permission"@,
        FaultReason::SmInterruptAddr => "output in interrupt address range"@,
        FaultReason::Other(v) => "fault reason 0x"@ + hex2(v),
    }
}

impl FaultReason {
    /// A human-readable description of the fault reason.
    pub fn describe(&self) -> (r: String)
        ensures
            r@ == fault_reason_text(*self),
    {
        let mut s = String::new();
        match self {
            FaultReason::NoFault => {
                s.append("no fault");
            },
            FaultReason::RootEntryPresent => {
                s.append("root entry not present");
            },
            FaultReason::ContextEntryPresent => {
                s.append("context entry not present");
            },
            FaultReason::ContextEntryRsvd => {
                s.append("context entry reserved bits");
            },
            FaultReason::ContextEntryTt => {
                s.append("unsupported translation type");
            },
            FaultReason::PagingEntryPresent => {
                s.append("paging entry not present");
            },
            FaultReason::PagingEntryRsvd => {
                s.append("paging entry reserved bits");
            },
            FaultReason::AccessBlocked => {
                s.append("DMA access blocked");
            },
            FaultReason::PasidDirAccess => {
                s.append("PASID directory access failure");
            },
            FaultReason::PasidDirPresent => {
                s.append("PASID directory entry not present");
            },
            FaultReason::PasidTableAccess => {
                s.append("PASID table access failure");
            },
            FaultReason::PasidTablePresent => {
                s.append("PASID table entry not present");
            },
            FaultReason::PasidTableInvalid => {
                s.append("PASID table entry invalid");
            },
            FaultReason::IrRequestRsvd => {
                s.append("IR request reserved fields");
            },
            FaultReason::IrIndexOver => {
                s.append("IR index out of range");
            },
            FaultReason::IrEntryPresent => {
                s.append("IRTE not present");
            },
            FaultReason::IrRootInvalid => {
                s.append("invalid IR table address");
            },
            FaultReason::IrteRsvd => {
                s.append("IRTE reserved bits");
            },
            FaultReason::IrRequestCompat => {
                s.append("compat interrupt while IR disabled");
            },
            FaultReason::IrSourceId => {
                s.append("interrupt source-id invalid");
            },
            FaultReason::RtaddrInvalidTtm => {
                s.append("invalid TTM in RTADDR");
            },
            FaultReason::SmContextEntryPresent => {
                s.append("scalable context entry not present");
            },
            FaultReason::FsPagingEntryAccess => {
                s.append("first-stage entry access failure");
            },
            FaultReason::FsPagingEntryPresent => {
                s.append("first-stage entry not present");
            },
            FaultReason::FsPagingEntryRsvd => {
                s.append("first-stage entry reserved bits");
            },
            FaultReason::FsptptrInvalid => {
                s.append("invalid FSPTPTR");
            },
            FaultReason::FsNonCanonical => {
                s.append("non-canonical first-stage address");
            },
            FaultReason::FsPrivilege => {
                s.append("first-stage privilege violation");
            },
            FaultReason::SmWrite => {
                s.append("write without permission");
            },
            FaultReason::SmInterruptAddr => {
                s.append("output in interrupt address range");
            },
            FaultReason::Other(v) => {
                s.append("fault reason 0x");
                push_hex2(&mut s, *v);
            },
        }
        s
    }
}

impl FaultReason {
    /// Build from the raw 8-bit field: a known code gives its variant, any
    /// other value gives `Other`.
    #[verifier::allow_in_spec]
    pub fn from_bits(v: u8) -> FaultReason
        returns
            match v {
                0x00 => FaultReason::NoFault,
                0x01 => FaultReason::RootEntryPresent,
                0x02 => FaultReason::ContextEntryPresent,
                0x03 => FaultReason::ContextEntryRsvd,
                0x04 => FaultReason::ContextEntryTt,
                0x05 => FaultReason::PagingEntryPresent,
                0x06 => FaultReason::PagingEntryRsvd,
                0x07 => FaultReason::AccessBlocked,
                0x50 => FaultReason::PasidDirAccess,
                0x51 => FaultReason::PasidDirPresent,
                0x58 => FaultReason::PasidTableAccess,
                0x59 => FaultReason::PasidTablePresent,
                0x5b => FaultReason::PasidTableInvalid,
                0x20 => FaultReason::IrRequestRsvd,
                0x21 => FaultReason::IrIndexOver,
                0x22 => FaultReason::IrEntryPresent,
                0x23 => FaultReason::IrRootInvalid,
                0x24 => FaultReason::IrteRsvd,
                0x25 => FaultReason::IrRequestCompat,
                0x26 => FaultReason::IrSourceId,
                0x31 => FaultReason::RtaddrInvalidTtm,
                0x47 => FaultReason::SmContextEntryPresent,
                0x70 => FaultReason::FsPagingEntryAccess,
                0x71 => FaultReason::FsPagingEntryPresent,
                0x72 => FaultReason::FsPagingEntryRsvd,
                0x73 => FaultReason::FsptptrInvalid,
                0x80 => FaultReason::FsNonCanonical,
                0x81 => FaultReason::FsPrivilege,
                0x85 => FaultReason::SmWrite,
                0x87 => FaultReason::SmInterruptAddr,
                _ => FaultReason::Other(v),
            },
    {
        match v {
            0x00 => FaultReason::NoFault,
            0x01 => FaultReason::RootEntryPresent,
            0x02 => FaultReason::ContextEntryPresent,
            0x03 => FaultReason::ContextEntryRsvd,
            0x04 => FaultReason::ContextEntryTt,
            0x05 => FaultReason::PagingEntryPresent,
            0x06 => FaultReason::PagingEntryRsvd,
            0x07 => FaultReason::AccessBlocked,
            0x50 => FaultReason::PasidDirAccess,
            0x51 => FaultReason::PasidDirPresent,
            0x58 => FaultReason::PasidTableAccess,
            0x59 => FaultReason::PasidTablePresent,
            0x5b => FaultReason::PasidTableInvalid,
            0x20 => FaultReason::IrRequestRsvd,
            0x21 => FaultReason::IrIndexOver,
            0x22 => FaultReason::IrEntryPresent,
            0x23 => FaultReason::IrRootInvalid,
            0x24 => FaultReason::IrteRsvd,
            0x25 => FaultReason::IrRequestCompat,
            0x26 => FaultReason::IrSourceId,
            0x31 => FaultReason::RtaddrInvalidTtm,
            0x47 => FaultReason::SmContextEntryPresent,
            0x70 => FaultReason::FsPagingEntryAccess,
            0x71 => FaultReason::FsPagingEntryPresent,
            0x72 => FaultReason::FsPagingEntryRsvd,
            0x73 => FaultReason::FsptptrInvalid,
            0x80 => FaultReason::FsNonCanonical,
            0x81 => FaultReason::FsPrivilege,
            0x85 => FaultReason::SmWrite,
            0x87 => FaultReason::SmInterruptAddr,
            _ => FaultReason::Other(v),
        }
    }

    /// Raw 8-bit code.
    #[verifier::allow_in_spec]
    pub fn bits(self) -> u8
        returns
            match self {
                FaultReason::NoFault => 0x00u8,
                FaultReason::RootEntryPresent => 0x01,
                FaultReason::ContextEntryPresent => 0x02,
                FaultReason::ContextEntryRsvd => 0x03,
                FaultReason::ContextEntryTt => 0x04,
                FaultReason::PagingEntryPresent => 0x05,
                FaultReason::PagingEntryRsvd => 0x06,
                FaultReason::AccessBlocked => 0x07,
                FaultReason::PasidDirAccess => 0x50,
                FaultReason::PasidDirPresent => 0x51,
                FaultReason::PasidTableAccess => 0x58,
                FaultReason::PasidTablePresent => 0x59,
                FaultReason::PasidTableInvalid => 0x5b,
                FaultReason::IrRequestRsvd => 0x20,
                FaultReason::IrIndexOver => 0x21,
                FaultReason::IrEntryPresent => 0x22,
                FaultReason::IrRootInvalid => 0x23,
                FaultReason::IrteRsvd => 0x24,
                FaultReason::IrRequestCompat => 0x25,
                FaultReason::IrSourceId => 0x26,
                FaultReason::RtaddrInvalidTtm => 0x31,
                FaultReason::SmContextEntryPresent => 0x47,
                FaultReason::FsPagingEntryAccess => 0x70,
                FaultReason::FsPagingEntryPresent => 0x71,
                FaultReason::FsPagingEntryRsvd => 0x72,
                FaultReason::FsptptrInvalid => 0x73,
                FaultReason::FsNonCanonical => 0x80,
                FaultReason::FsPrivilege => 0x81,
                FaultReason::SmWrite => 0x85,
                FaultReason::SmInterruptAddr => 0x87,
                FaultReason::Other(v) => v,
            },
    {
        match self {
            FaultReason::NoFault => 0x00,
            FaultReason::RootEntryPresent => 0x01,
            FaultReason::ContextEntryPresent => 0x02,
            FaultReason::ContextEntryRsvd => 0x03,
            FaultReason::ContextEntryTt => 0x04,
            FaultReason::PagingEntryPresent => 0x05,
            FaultReason::PagingEntryRsvd => 0x06,
            FaultReason::AccessBlocked => 0x07,
            FaultReason::PasidDirAccess => 0x50,
            FaultReason::PasidDirPresent => 0x51,
            FaultReason::PasidTableAccess => 0x58,
            FaultReason::PasidTablePresent => 0x59,
            FaultReason::PasidTableInvalid => 0x5b,
            FaultReason::IrRequestRsvd => 0x20,
            FaultReason::IrIndexOver => 0x21,
            FaultReason::IrEntryPresent => 0x22,
            FaultReason::IrRootInvalid => 0x23,
            FaultReason::IrteRsvd => 0x24,
            FaultReason::IrRequestCompat => 0x25,
            FaultReason::IrSourceId => 0x26,
            FaultReason::RtaddrInvalidTtm => 0x31,
            FaultReason::SmContextEntryPresent => 0x47,
            FaultReason::FsPagingEntryAccess => 0x70,
            FaultReason::FsPagingEntryPresent => 0x71,
            FaultReason::FsPagingEntryRsvd => 0x72,
            FaultReason::FsptptrInvalid => 0x73,
            FaultReason::FsNonCanonical => 0x80,
            FaultReason::FsPrivilege => 0x81,
            FaultReason::SmWrite => 0x85,
            FaultReason::SmInterruptAddr => 0x87,
            FaultReason::Other(v) => v,
        }
    }
}

/// Law: every 8-bit code decodes to a reason whose code it is, and a
/// reason decodes back from its code unless it is an `Other` carrying a
/// known code.
pub proof fn lemma_fault_reason_roundtrip(r: FaultReason, v: u8)
    requires
        r matches FaultReason::Other(x) ==> FaultReason::from_bits(x) is Other,
    ensures
        FaultReason::from_bits(v).bits() == v,
        FaultReason::from_bits(r.bits()) == r,
{
}

/// Address type (`AT`, bits 125:124 of the fault record).
#[derive(Copy, Clone, Debug, Default, PartialEq, Eq, Structural)]
pub enum AddrType {
    /// Default (untranslated / according to request) (00b).
    #[default]
    Default,
    /// Translation request (01b).
    TranslationRequest,
    /// Translated request (10b).
    Translated,
    /// Reserved (11b).
    Reserved,
}

impl AddrType {
    /// Decode from the raw 2-bit field (the low two bits of `v`).
    #[verifier::allow_in_spec]
    pub fn from_bits(v: u8) -> AddrType
        returns
            match v % 4 {
                0 => AddrType::Default,
                1 => AddrType::TranslationRequest,
                2 => AddrType::Translated,
                _ => AddrType::Reserved,
            },
    {
        match v % 4 {
            0 => AddrType::Default,
            1 => AddrType::TranslationRequest,
            2 => AddrType::Translated,
            _ => AddrType::Reserved,
        }
    }

    /// Raw 2-bit encoding.
    #[verifier::allow_in_spec]
    pub fn bits(self) -> u8
        returns
            match self {
                AddrType::Default => 0u8,
                AddrType::TranslationRequest => 1,
                AddrType::Translated => 2,
                AddrType::Reserved => 3,
            },
    {
        match self {
            AddrType::Default => 0,
            AddrType::TranslationRequest => 1,
            AddrType::Translated => 2,
            AddrType::Reserved => 3,
        }
    }
}

/// Law: decoding the encoding of an address type gives it back, and
/// encoding a decoded field gives its low two bits.
pub proof fn lemma_addr_type_roundtrip(a: AddrType, v: u8)
    ensures
        AddrType::from_bits(a.bits()) == a,
        AddrType::from_bits(v).bits() == v % 4,
{
}

/// Mask of the fault info bits (63:12) of the low qword.
pub open spec fn fault_info_mask() -> u64 {
    0xffff_ffff_ffff_f000
}

/// Facts about the fault info mask.
proof fn lemma_fault_info_mask(w: u64, fi: u64)
    by (bit_vector)
    ensures
        ((w & 0xfff) | (fi & 0xffff_ffff_ffff_f000)) & 0xffff_ffff_ffff_f000 == fi
            & 0xffff_ffff_ffff_f000,
{
}

/// One 128-bit fault recording register (FRCD_REG).
///
/// | Bits    | Field |
/// |---------|-------|
/// | 127     | F (fault) |
/// | 126     | T1 (type bit 1) |
/// | 125:124 | AT (address type) |
/// | 123:104 | PV (PASID value) |
/// | 103:96  | FR (fault reason) |
/// | 95      | PP (PASID present) |
/// | 94      | PRIV (privilege mode requested) |
/// | 93      | EXEC (execute requested) |
/// | 92      | T2 (type bit 2) |
/// | 79:64   | SID (source identifier) |
/// | 63:12   | FI (fault info) |
#[derive(Copy, Clone, Debug, Default, PartialEq, Eq, Structural)]
pub struct FaultRecord {
    /// Low qword: fault info (63:12).
    pub low: u64,
    /// High qword: SID, FR, PP, PRIV, EXEC, T2, AT, T1, F.
    pub high: u64,
}

impl FaultRecord {
    /// A record with all fields zeroed.
    pub fn new() -> (r: Self)
        ensures
            r == (FaultRecord { low: 0, high: 0 }),
    {
        FaultRecord { low: 0, high: 0 }
    }

    /// Fault flag (bit 127): the record holds a fault when set.
    #[verifier::allow_in_spec]
    pub fn fault(&self) -> bool
        returns
            flag(self.high, 63),
    {
        get_flag(self.high, 63)
    }

    /// Set the fault flag.
    pub fn with_fault(self, f: bool) -> (r: Self)
        ensures
            r == (FaultRecord { high: with_flag(self.high, 63, f), ..self }),
            r.fault() == f,
    {
        proof {
            lemma_flag_with_flag(self.high, 63, f, 63);
        }
        FaultRecord { high: put_flag(self.high, 63, f), ..self }
    }

    /// Fault reason (high qword bits 39:32).
    #[verifier::allow_in_spec]
    pub fn reason(&self) -> FaultReason
        returns
            FaultReason::from_bits(field(self.high, 32, 8) as u8),
    {
        FaultReason::from_bits(extract_bits(self.high, 39, 32) as u8)
    }

    /// Set the fault reason.
    pub fn with_reason(self, fr: FaultReason) -> (r: Self)
        ensures
            r == (FaultRecord { high: with_field(self.high, 32, 8, fr.bits() as u64), ..self }),
            r.reason() == FaultReason::from_bits(fr.bits()),
    {
        proof {
            lemma_low_mask_values();
            lemma_field_roundtrip(self.high, 32, 8, fr.bits() as u64);
        }
        FaultRecord { high: put_field(self.high, 32, 8, fr.bits() as u64), ..self }
    }

    /// Source identifier (record bits 79:64 = high qword bits 15:0).
    #[verifier::allow_in_spec]
    pub fn source_id(&self) -> u16
        returns
            field(self.high, 0, 16) as u16,
    {
        get_field(self.high, 0, 16) as u16
    }

    /// Set the source identifier.
    pub fn with_source_id(self, sid: u16) -> (r: Self)
        ensures
            r == (FaultRecord { high: with_field(self.high, 0, 16, sid as u64), ..self }),
            r.source_id() == sid,
    {
        proof {
            lemma_low_mask_values();
            lemma_field_roundtrip(self.high, 0, 16, sid as u64);
        }
        FaultRecord { high: put_field(self.high, 0, 16, sid as u64), ..self }
    }

    /// Fault info (address or data associated with the fault, bits 63:12 in
    /// place).
    #[verifier::allow_in_spec]
    pub fn fault_info(&self) -> u64
        returns
            self.low & fault_info_mask(),
    {
        self.low & 0xffff_ffff_ffff_f000
    }

    /// Set the fault info; bits 11:0 of the low qword stay.
    pub fn with_fault_info(self, fi: u64) -> (r: Self)
        ensures
            r == (FaultRecord { low: (self.low & 0xfff) | (fi & fault_info_mask()), ..self }),
            r.fault_info() == fi & fault_info_mask(),
    {
        proof {
            lemma_fault_info_mask(self.low, fi);
        }
        FaultRecord { low: (self.low & 0xfff) | (fi & 0xffff_ffff_ffff_f000), ..self }
    }

    /// PASID present flag (PP, high qword bit 31).
    #[verifier::allow_in_spec]
    pub fn pasid_present(&self) -> bool
        returns
            flag(self.high, 31),
    {
        get_flag(self.high, 31)
    }

    /// PASID value (high qword bits 59:40).
    #[verifier::allow_in_spec]
    pub fn pasid(&self) -> u32
        returns
            field(self.high, 40, 20) as u32,
    {
        extract_bits(self.high, 59, 40) as u32
    }

    /// Set the PASID (its low 20 bits) and the PASID present flag.
    pub fn with_pasid(self, pasid: u32) -> (r: Self)
        ensures
            r == (FaultRecord {
                high: with_flag(with_field(self.high, 40, 20, pasid as u64), 31, true),
                ..self
            }),
            r.pasid() == pasid % 0x10_0000,
            r.pasid_present(),
    {
        let high = put_field(self.high, 40, 20, pasid as u64);
        proof {
            lemma_low_mask_values();
            lemma_low_mask_mod(pasid as u64);
            lemma_field_roundtrip(self.high, 40, 20, pasid as u64);
            lemma_flag_with_flag(high, 31, true, 31);
            lemma_field_with_field_other(high, 31, 1, 1, 40, 20);
        }
        FaultRecord { high: put_flag(high, 31, true), ..self }
    }

    /// Privilege-mode requested (PRIV, high qword bit 30).
    #[verifier::allow_in_spec]
    pub fn privilege_requested(&self) -> bool
        returns
            flag(self.high, 30),
    {
        get_flag(self.high, 30)
    }

    /// Execute requested (EXEC, high qword bit 29).
    #[verifier::allow_in_spec]
    pub fn execute_requested(&self) -> bool
        returns
            flag(self.high, 29),
    {
        get_flag(self.high, 29)
    }

    /// Address type (high qword bits 61:60).
    #[verifier::allow_in_spec]
    pub fn addr_type(&self) -> AddrType
        returns
            AddrType::from_bits(field(self.high, 60, 2) as u8),
    {
        AddrType::from_bits(extract_bits(self.high, 61, 60) as u8)
    }

    /// Set the address type.
    pub fn with_addr_type(self, at: AddrType) -> (r: Self)
        ensures
            r == (FaultRecord { high: with_field(self.high, 60, 2, at.bits() as u64), ..self }),
            r.addr_type() == at,
    {
        proof {
            lemma_low_mask_values();
            lemma_field_roundtrip(self.high, 60, 2, at.bits() as u64);
        }
        FaultRecord { high: put_field(self.high, 60, 2, at.bits() as u64), ..self }
    }

    /// Raw words (low, high).
    pub fn words(&self) -> (r: [u64; 2])
        ensures
            r@ == seq![self.low, self.high],
    {
        [self.low, self.high]
    }

    /// Decode from raw words.
    pub fn from_words(low: u64, high: u64) -> (r: Self)
        ensures
            r == (FaultRecord { low, high }),
    {
        FaultRecord { low, high }
    }
}

} // verus!
