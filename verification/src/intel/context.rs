//! Root, context, PASID-directory and PASID-table entries.
//!
//! Covers both translation-table modes selected by `RTADDR_REG.TTM`:
//!
//! * **Legacy**: 128-bit root entries referencing 128-bit context entries.
//! * **Scalable**: 128-bit root entries referencing 256-bit scalable context
//!   entries, which point to a two-level PASID directory / PASID table of
//!   512-bit entries.
//!
//! All entry types are plain wrappers over their little-endian qwords.
use vstd::prelude::*;
use vstd::string::StringExecFns;

use crate::text::{digits, push_hex};
use crate::bitfield::{
    field,
    flag,
    get_field,
    get_flag,
    lemma_field_roundtrip,
    lemma_flag_with_flag,
    lemma_low_mask_mod,
    lemma_low_mask_values,
    put_field,
    put_flag,
    with_field,
    with_flag,
};
use crate::bytes::{le64_at, le_byte, le_image, lemma_le_image_read_back, zc_read_le_u64};
use crate::intel::bits::extract_bits;

verus! {

/// Mask of a 4 KiB aligned table pointer held in bits 63:12.
pub open spec fn page_ptr_mask() -> u64 {
    0xffff_ffff_ffff_f000
}

/// Facts about the pointer masks.
proof fn lemma_ptr_masks(w: u64, addr: u64)
    by (bit_vector)
    ensures
        ((w & 0xfff) | (addr & 0xffff_ffff_ffff_f000)) & 0xffff_ffff_ffff_f000 == addr
            & 0xffff_ffff_ffff_f000,
        ((w & 0xfff) | (addr & 0xffff_ffff_ffff_f000)) & 0xfff == w & 0xfff,
        ((addr & 0xffff_ffff_ffff_f000) | 1) & 0xffff_ffff_ffff_f000 == addr & 0xffff_ffff_ffff_f000,
        flag((addr & 0xffff_ffff_ffff_f000) | 1, 0),
        !flag((addr & 0xffff_ffff_ffff_f000) | 1, 1),
        flag((w & 0xfff) | (addr & 0xffff_ffff_ffff_f000), 0) == flag(w, 0),
{
}

/// Legacy-mode root table entry (128 bits).
///
/// Only the present bit and the context-table pointer are defined; the rest
/// is reserved and must be zero.
#[derive(Copy, Clone, Debug, Default, PartialEq, Eq, Structural)]
pub struct RootEntry {
    /// Low qword: present bit + context table pointer.
    pub low: u64,
    /// High qword: reserved (0).
    pub high: u64,
}

impl RootEntry {
    /// Create a present root entry pointing at a 4 KiB aligned context
    /// table.
    pub fn new(context_table: u64) -> (r: Self)
        ensures
            r == (RootEntry { low: (context_table & page_ptr_mask()) | 1, high: 0 }),
            r.present(),
            r.context_table() == context_table & page_ptr_mask(),
    {
        proof {
            lemma_ptr_masks(0, context_table);
        }
        RootEntry { low: (context_table & 0xffff_ffff_ffff_f000) | 1, high: 0 }
    }

    /// Present flag (bit 0).
    #[verifier::allow_in_spec]
    pub fn present(&self) -> bool
        returns
            flag(self.low, 0),
    {
        get_flag(self.low, 0)
    }

    /// Context table base address (bits 63:12, in place).
    #[verifier::allow_in_spec]
    pub fn context_table(&self) -> u64
        returns
            self.low & page_ptr_mask(),
    {
        self.low & 0xffff_ffff_ffff_f000
    }
}

/// Scalable-mode root table entry: the wire layout of [`RootEntry`],
/// referencing a scalable context table.
pub type ScalableRootEntry = RootEntry;

/// Adjusted guest address width (`AW`, bits 66:64 of the context entry).
#[derive(Copy, Clone, Debug, PartialEq, Eq, PartialOrd, Ord, Structural)]
pub enum AddrWidth {
    /// Reserved encoding (000b).
    Reserved0,
    /// 39-bit AGAW, 3-level page table (001b).
    Agaw39,
    /// 48-bit AGAW, 4-level page table (010b).
    Agaw48,
    /// 57-bit AGAW, 5-level page table (011b).
    Agaw57,
    /// Any other reserved encoding.
    Reserved(u8),
}

/// The text that describes `w`.
pub open spec fn addr_width_text(w: AddrWidth) -> Seq<char> {
    match w {
        AddrWidth::Agaw39 => "39-bit (3-level)"@,
        AddrWidth::Agaw48 => "48-bit (4-level)"@,
        AddrWidth::Agaw57 => "57-bit (5-level)"@,
        _ => "reserved ("@ + digits(w.bits() as nat, 16) + ")"@,
    }
}

impl AddrWidth {
    /// A human-readable description of the address width.
    pub fn describe(&self) -> (r: String)
        ensures
            r@ == addr_width_text(*self),
    {
        let mut s = String::new();
        match self {
            AddrWidth::Agaw39 => {
                s.append("39-bit (3-level)");
            },
            AddrWidth::Agaw48 => {
                s.append("48-bit (4-level)");
            },
            AddrWidth::Agaw57 => {
                s.append("57-bit (5-level)");
            },
            other => {
                s.append("reserved (");
                push_hex(&mut s, other.bits() as u64);
                s.append(")");
            },
        }
        s
    }
}

impl AddrWidth {
    /// Decode from the raw 3-bit field (the low three bits of `v`).
    #[verifier::allow_in_spec]
    pub fn from_bits(v: u8) -> AddrWidth
        returns
            match v % 8 {
                1 => AddrWidth::Agaw39,
                2 => AddrWidth::Agaw48,
                3 => AddrWidth::Agaw57,
                0 => AddrWidth::Reserved0,
                other => AddrWidth::Reserved(other),
            },
    {
        match v % 8 {
            1 => AddrWidth::Agaw39,
            2 => AddrWidth::Agaw48,
            3 => AddrWidth::Agaw57,
            0 => AddrWidth::Reserved0,
            other => AddrWidth::Reserved(other),
        }
    }

    /// Raw 3-bit encoding.
    #[verifier::allow_in_spec]
    pub fn bits(self) -> u8
        returns
            match self {
                AddrWidth::Reserved0 => 0u8,
                AddrWidth::Agaw39 => 1,
                AddrWidth::Agaw48 => 2,
                AddrWidth::Agaw57 => 3,
                AddrWidth::Reserved(v) => v % 8,
            },
    {
        match self {
            AddrWidth::Reserved0 => 0,
            AddrWidth::Agaw39 => 1,
            AddrWidth::Agaw48 => 2,
            AddrWidth::Agaw57 => 3,
            AddrWidth::Reserved(v) => v % 8,
        }
    }

    /// Number of address bits covered by this AGAW (0 when reserved).
    #[verifier::allow_in_spec]
    pub fn address_bits(self) -> u32
        returns
            match self {
                AddrWidth::Agaw39 => 39u32,
                AddrWidth::Agaw48 => 48,
                AddrWidth::Agaw57 => 57,
                _ => 0,
            },
    {
        match self {
            AddrWidth::Agaw39 => 39,
            AddrWidth::Agaw48 => 48,
            AddrWidth::Agaw57 => 57,
            _ => 0,
        }
    }
}

impl From<u8> for AddrWidth {
    fn from(v: u8) -> (r: Self)
        ensures
            r == AddrWidth::from_bits(v),
    {
        AddrWidth::from_bits(v)
    }
}

impl vstd::std_specs::convert::FromSpecImpl<u8> for AddrWidth {
    open spec fn obeys_from_spec() -> bool {
        true
    }

    open spec fn from_spec(v: u8) -> AddrWidth {
        AddrWidth::from_bits(v)
    }
}

/// Law: encoding a decoded width gives the low three bits back, and
/// decoding an encoding gives the width back unless it is a `Reserved`
/// value that is not itself a reserved 3-bit code (4..=7).
pub proof fn lemma_addr_width_roundtrip(w: AddrWidth, v: u8)
    requires
        w matches AddrWidth::Reserved(x) ==> 4 <= x < 8,
    ensures
        AddrWidth::from_bits(v).bits() == v % 8,
        AddrWidth::from_bits(w.bits()) == w,
{
}

/// Translation type (`TT`, bits 3:2 of the context entry).
#[derive(Copy, Clone, Debug, Default, PartialEq, Eq, Structural)]
pub enum TransType {
    /// `00b` — untranslated requests translated through `SSPTPTR`.
    #[default]
    SecondStage,
    /// `01b` — reserved encoding.
    Reserved01,
    /// `10b` — pass-through (requests bypass translation).
    PassThrough,
    /// `11b` — reserved.
    Reserved11,
}

impl TransType {
    /// Decode from the raw 2-bit field (the low two bits of `v`).
    #[verifier::allow_in_spec]
    pub fn from_bits(v: u8) -> TransType
        returns
            match v % 4 {
                0 => TransType::SecondStage,
                1 => TransType::Reserved01,
                2 => TransType::PassThrough,
                _ => TransType::Reserved11,
            },
    {
        match v % 4 {
            0 => TransType::SecondStage,
            1 => TransType::Reserved01,
            2 => TransType::PassThrough,
            _ => TransType::Reserved11,
        }
    }

    /// Raw 2-bit encoding.
    #[verifier::allow_in_spec]
    pub fn bits(self) -> u8
        returns
            match self {
                TransType::SecondStage => 0u8,
                TransType::Reserved01 => 1,
                TransType::PassThrough => 2,
                TransType::Reserved11 => 3,
            },
    {
        match self {
            TransType::SecondStage => 0,
            TransType::Reserved01 => 1,
            TransType::PassThrough => 2,
            TransType::Reserved11 => 3,
        }
    }
}

impl From<u8> for TransType {
    fn from(v: u8) -> (r: Self)
        ensures
            r == TransType::from_bits(v),
    {
        TransType::from_bits(v)
    }
}

impl vstd::std_specs::convert::FromSpecImpl<u8> for TransType {
    open spec fn obeys_from_spec() -> bool {
        true
    }

    open spec fn from_spec(v: u8) -> TransType {
        TransType::from_bits(v)
    }
}

/// Law: decoding the encoding of a translation type gives it back, and
/// encoding a decoded field gives its low two bits.
pub proof fn lemma_trans_type_roundtrip(t: TransType, v: u8)
    ensures
        TransType::from_bits(t.bits()) == t,
        TransType::from_bits(v).bits() == v % 4,
{
}

/// Legacy-mode context entry (128 bits).
///
/// | Bits   | Field      |
/// |--------|------------|
/// | 87:72  | DID        |
/// | 70:67  | IGN        |
/// | 66:64  | AW         |
/// | 63:12  | SSPTPTR    |
/// | 3:2    | TT         |
/// | 1      | FPD        |
/// | 0      | P          |
#[derive(Copy, Clone, Debug, Default, PartialEq, Eq, Structural)]
pub struct ContextEntry {
    /// Qword 0: P, FPD, TT, reserved, SSPTPTR.
    pub q0: u64,
    /// Qword 1: AW, IGN, reserved, DID.
    pub q1: u64,
}

impl ContextEntry {
    /// An entry with all fields zeroed (not present).
    pub fn new() -> (r: Self)
        ensures
            r == (ContextEntry { q0: 0, q1: 0 }),
    {
        ContextEntry { q0: 0, q1: 0 }
    }

    /// Set the present flag.
    pub fn with_present(self, p: bool) -> (r: Self)
        ensures
            r == (ContextEntry { q0: with_flag(self.q0, 0, p), ..self }),
            r.present() == p,
    {
        proof {
            lemma_flag_with_flag(self.q0, 0, p, 0);
        }
        ContextEntry { q0: put_flag(self.q0, 0, p), ..self }
    }

    /// Present flag (bit 0).
    #[verifier::allow_in_spec]
    pub fn present(&self) -> bool
        returns
            flag(self.q0, 0),
    {
        get_flag(self.q0, 0)
    }

    /// Set fault-processing disable (bit 1).
    pub fn with_fault_disable(self, fpd: bool) -> (r: Self)
        ensures
            r == (ContextEntry { q0: with_flag(self.q0, 1, fpd), ..self }),
            r.fault_disable() == fpd,
    {
        proof {
            lemma_flag_with_flag(self.q0, 1, fpd, 1);
        }
        ContextEntry { q0: put_flag(self.q0, 1, fpd), ..self }
    }

    /// Fault-processing disable flag (bit 1).
    #[verifier::allow_in_spec]
    pub fn fault_disable(&self) -> bool
        returns
            flag(self.q0, 1),
    {
        get_flag(self.q0, 1)
    }

    /// Set the translation type (bits 3:2).
    pub fn with_translation_type(self, tt: TransType) -> (r: Self)
        ensures
            r == (ContextEntry { q0: with_field(self.q0, 2, 2, tt.bits() as u64), ..self }),
            r.translation_type() == tt,
    {
        proof {
            lemma_low_mask_values();
            lemma_field_roundtrip(self.q0, 2, 2, tt.bits() as u64);
        }
        ContextEntry { q0: put_field(self.q0, 2, 2, tt.bits() as u64), ..self }
    }

    /// Translation type (bits 3:2).
    #[verifier::allow_in_spec]
    pub fn translation_type(&self) -> TransType
        returns
            TransType::from_bits(field(self.q0, 2, 2) as u8),
    {
        TransType::from_bits(extract_bits(self.q0, 3, 2) as u8)
    }

    /// Set the second-stage page-table pointer (bits 63:12); bits 11:0 stay.
    pub fn with_second_stage_ptr(self, addr: u64) -> (r: Self)
        ensures
            r == (ContextEntry { q0: (self.q0 & 0xfff) | (addr & page_ptr_mask()), ..self }),
            r.second_stage_ptr() == addr & page_ptr_mask(),
            r.present() == self.present(),
    {
        proof {
            lemma_ptr_masks(self.q0, addr);
        }
        ContextEntry { q0: (self.q0 & 0xfff) | (addr & 0xffff_ffff_ffff_f000), ..self }
    }

    /// Second-stage page-table base address (bits 63:12, in place).
    #[verifier::allow_in_spec]
    pub fn second_stage_ptr(&self) -> u64
        returns
            self.q0 & page_ptr_mask(),
    {
        self.q0 & 0xffff_ffff_ffff_f000
    }

    /// Set the adjusted guest address width (entry bits 66:64 = q1[2:0]).
    pub fn with_address_width(self, aw: AddrWidth) -> (r: Self)
        ensures
            r == (ContextEntry { q1: with_field(self.q1, 0, 3, aw.bits() as u64), ..self }),
            r.address_width() == AddrWidth::from_bits(aw.bits()),
    {
        proof {
            lemma_low_mask_values();
            lemma_field_roundtrip(self.q1, 0, 3, aw.bits() as u64);
        }
        ContextEntry { q1: put_field(self.q1, 0, 3, aw.bits() as u64), ..self }
    }

    /// Adjusted guest address width (q1[2:0]).
    #[verifier::allow_in_spec]
    pub fn address_width(&self) -> AddrWidth
        returns
            AddrWidth::from_bits(field(self.q1, 0, 3) as u8),
    {
        AddrWidth::from_bits(extract_bits(self.q1, 2, 0) as u8)
    }

    /// Set the domain identifier (entry bits 87:72 = q1[23:8]).
    pub fn with_domain_id(self, did: u16) -> (r: Self)
        ensures
            r == (ContextEntry { q1: with_field(self.q1, 8, 16, did as u64), ..self }),
            r.domain_id() == did,
    {
        proof {
            lemma_low_mask_values();
            lemma_field_roundtrip(self.q1, 8, 16, did as u64);
        }
        ContextEntry { q1: put_field(self.q1, 8, 16, did as u64), ..self }
    }

    /// Domain identifier (q1[23:8]).
    #[verifier::allow_in_spec]
    pub fn domain_id(&self) -> u16
        returns
            field(self.q1, 8, 16) as u16,
    {
        extract_bits(self.q1, 23, 8) as u16
    }

    /// Raw 16 bytes, little-endian, ready to store in the table.
    pub fn into_bytes(self) -> (r: [u8; 16])
        ensures
            le_image(seq![self.q0, self.q1], r@),
    {
        let words = [self.q0, self.q1];
        let mut out = [0u8; 16];
        let mut i: usize = 0;
        while i < 16
            invariant
                i <= 16,
                words@ == seq![self.q0, self.q1],
                forall|j: int| 0 <= j < i ==> #[trigger] out[j] == le_byte(words@[j / 8], j % 8),
            decreases 16 - i,
        {
            out[i] = (words[i / 8] >> (8 * (i % 8)) as u64) as u8;
            i += 1;
        }
        proof {
            assert(le_image(words@, out@));
        }
        out
    }
}

/// Scalable-mode context entry (256 bits).
#[derive(Copy, Clone, Debug, Default, PartialEq, Eq)]
pub struct ScalableContextEntry {
    /// Qword 0: P, FPD, DTE, PASIDE, PRE, HPTE, EPTR, PDTS, PASIDDIRPTR.
    pub q0: u64,
    /// Qword 1: RID_PASID (19:0), RID_PRIV (20).
    pub q1: u64,
    /// Qwords 2..3: reserved.
    pub reserved: [u64; 2],
}

impl ScalableContextEntry {
    /// An entry with all fields zeroed.
    pub fn new() -> (r: Self)
        ensures
            r.q0 == 0,
            r.q1 == 0,
            r.reserved@ == seq![0u64, 0u64],
    {
        ScalableContextEntry { q0: 0, q1: 0, reserved: [0, 0] }
    }

    /// Present flag (bit 0).
    #[verifier::allow_in_spec]
    pub fn present(&self) -> bool
        returns
            flag(self.q0, 0),
    {
        get_flag(self.q0, 0)
    }

    /// Set the present flag.
    pub fn with_present(self, p: bool) -> (r: Self)
        ensures
            r == (ScalableContextEntry { q0: with_flag(self.q0, 0, p), ..self }),
            r.present() == p,
    {
        proof {
            lemma_flag_with_flag(self.q0, 0, p, 0);
        }
        ScalableContextEntry { q0: put_flag(self.q0, 0, p), ..self }
    }

    /// Fault-processing disable (bit 1).
    #[verifier::allow_in_spec]
    pub fn fault_disable(&self) -> bool
        returns
            flag(self.q0, 1),
    {
        get_flag(self.q0, 1)
    }

    /// Device-TLB enable (bit 2).
    #[verifier::allow_in_spec]
    pub fn device_tlb_enable(&self) -> bool
        returns
            flag(self.q0, 2),
    {
        get_flag(self.q0, 2)
    }

    /// PASID enable (bit 3): process requests-with-PASID.
    #[verifier::allow_in_spec]
    pub fn pasid_enable(&self) -> bool
        returns
            flag(self.q0, 3),
    {
        get_flag(self.q0, 3)
    }

    /// Page-request enable (bit 4).
    #[verifier::allow_in_spec]
    pub fn page_request_enable(&self) -> bool
        returns
            flag(self.q0, 4),
    {
        get_flag(self.q0, 4)
    }

    /// HPT enable (bit 5).
    #[verifier::allow_in_spec]
    pub fn hpt_enable(&self) -> bool
        returns
            flag(self.q0, 5),
    {
        get_flag(self.q0, 5)
    }

    /// Enable PASID in translated requests (bit 6).
    #[verifier::allow_in_spec]
    pub fn eptr_enable(&self) -> bool
        returns
            flag(self.q0, 6),
    {
        get_flag(self.q0, 6)
    }

    /// PASID directory size (bits 11:9): the directory holds `2^(X+7)`
    /// entries.
    #[verifier::allow_in_spec]
    pub fn pasid_dir_size(&self) -> u8
        returns
            field(self.q0, 9, 3) as u8,
    {
        extract_bits(self.q0, 11, 9) as u8
    }

    /// Set the PASID directory size order (its low three bits).
    pub fn with_pasid_dir_size(self, order: u8) -> (r: Self)
        ensures
            r == (ScalableContextEntry { q0: with_field(self.q0, 9, 3, order as u64), ..self }),
            r.pasid_dir_size() == order % 8,
    {
        proof {
            lemma_low_mask_values();
            lemma_low_mask_mod(order as u64);
            lemma_field_roundtrip(self.q0, 9, 3, order as u64);
        }
        ScalableContextEntry { q0: put_field(self.q0, 9, 3, order as u64), ..self }
    }

    /// Set the PASID directory pointer (bits 63:12); bits 11:0 stay.
    pub fn with_pasid_dir_ptr(self, addr: u64) -> (r: Self)
        ensures
            r == (ScalableContextEntry {
                q0: (self.q0 & 0xfff) | (addr & page_ptr_mask()),
                ..self
            }),
            r.pasid_dir_ptr() == addr & page_ptr_mask(),
            r.present() == self.present(),
    {
        proof {
            lemma_ptr_masks(self.q0, addr);
        }
        ScalableContextEntry { q0: (self.q0 & 0xfff) | (addr & 0xffff_ffff_ffff_f000), ..self }
    }

    /// PASID directory base address (bits 63:12, in place).
    #[verifier::allow_in_spec]
    pub fn pasid_dir_ptr(&self) -> u64
        returns
            self.q0 & page_ptr_mask(),
    {
        self.q0 & 0xffff_ffff_ffff_f000
    }

    /// RID_PASID (entry bits 83:64 = q1[19:0]): PASID used for requests
    /// without PASID.
    #[verifier::allow_in_spec]
    pub fn rid_pasid(&self) -> u32
        returns
            field(self.q1, 0, 20) as u32,
    {
        extract_bits(self.q1, 19, 0) as u32
    }

    /// Set RID_PASID (the low 20 bits of `pasid`).
    pub fn with_rid_pasid(self, pasid: u32) -> (r: Self)
        ensures
            r == (ScalableContextEntry { q1: with_field(self.q1, 0, 20, pasid as u64), ..self }),
            r.rid_pasid() == pasid % 0x10_0000,
    {
        proof {
            lemma_low_mask_values();
            lemma_low_mask_mod(pasid as u64);
            lemma_field_roundtrip(self.q1, 0, 20, pasid as u64);
        }
        ScalableContextEntry { q1: put_field(self.q1, 0, 20, pasid as u64), ..self }
    }

    /// RID_PRIV (entry bit 84 = q1[20]).
    #[verifier::allow_in_spec]
    pub fn rid_priv(&self) -> bool
        returns
            flag(self.q1, 20),
    {
        get_flag(self.q1, 20)
    }

    /// Set RID_PRIV.
    pub fn with_rid_priv(self, en: bool) -> (r: Self)
        ensures
            r == (ScalableContextEntry { q1: with_flag(self.q1, 20, en), ..self }),
            r.rid_priv() == en,
    {
        proof {
            lemma_flag_with_flag(self.q1, 20, en, 20);
        }
        ScalableContextEntry { q1: put_flag(self.q1, 20, en), ..self }
    }
}

/// Scalable-mode PASID directory entry (128 bits).
///
/// Bits 63:12 hold the scalable-mode PASID-table pointer, bit 0 is the
/// present flag, bit 1 is FPD.
#[derive(Copy, Clone, Debug, Default, PartialEq, Eq, Structural)]
pub struct PasidDirEntry {
    /// Low qword: P (0), FPD (1), SMPTBLPTR (63:12).
    pub low: u64,
    /// High qword: reserved.
    pub high: u64,
}

impl PasidDirEntry {
    /// Create a present entry pointing at a PASID table.
    pub fn new(pasid_table: u64) -> (r: Self)
        ensures
            r == (PasidDirEntry { low: (pasid_table & page_ptr_mask()) | 1, high: 0 }),
            r.present(),
            !r.fault_disable(),
            r.pasid_table_ptr() == pasid_table & page_ptr_mask(),
    {
        proof {
            lemma_ptr_masks(0, pasid_table);
        }
        PasidDirEntry { low: (pasid_table & 0xffff_ffff_ffff_f000) | 1, high: 0 }
    }

    /// Present flag (bit 0).
    #[verifier::allow_in_spec]
    pub fn present(&self) -> bool
        returns
            flag(self.low, 0),
    {
        get_flag(self.low, 0)
    }

    /// Fault-processing disable (bit 1).
    #[verifier::allow_in_spec]
    pub fn fault_disable(&self) -> bool
        returns
            flag(self.low, 1),
    {
        get_flag(self.low, 1)
    }

    /// PASID table base address (bits 63:12, in place).
    #[verifier::allow_in_spec]
    pub fn pasid_table_ptr(&self) -> u64
        returns
            self.low & page_ptr_mask(),
    {
        self.low & 0xffff_ffff_ffff_f000
    }
}

/// PASID granular translation type (`PGTT`, bits 8:6 of PASID entry qword 0).
#[derive(Copy, Clone, Debug, Default, PartialEq, Eq, Structural)]
pub enum Pgtt {
    /// Reserved (000b).
    #[default]
    Reserved0,
    /// First-stage only (001b).
    FirstStageOnly,
    /// Second-stage only (010b).
    SecondStageOnly,
    /// Nested translation (011b).
    Nested,
    /// Pass-through (100b).
    PassThrough,
    /// Any other reserved encoding.
    Reserved(u8),
}

impl Pgtt {
    /// Decode from the raw 3-bit field (the low three bits of `v`).
    #[verifier::allow_in_spec]
    pub fn from_bits(v: u8) -> Pgtt
        returns
            match v % 8 {
                1 => Pgtt::FirstStageOnly,
                2 => Pgtt::SecondStageOnly,
                3 => Pgtt::Nested,
                4 => Pgtt::PassThrough,
                0 => Pgtt::Reserved0,
                other => Pgtt::Reserved(other),
            },
    {
        match v % 8 {
            1 => Pgtt::FirstStageOnly,
            2 => Pgtt::SecondStageOnly,
            3 => Pgtt::Nested,
            4 => Pgtt::PassThrough,
            0 => Pgtt::Reserved0,
            other => Pgtt::Reserved(other),
        }
    }

    /// Raw 3-bit encoding.
    #[verifier::allow_in_spec]
    pub fn bits(self) -> u8
        returns
            match self {
                Pgtt::Reserved0 => 0u8,
                Pgtt::FirstStageOnly => 1,
                Pgtt::SecondStageOnly => 2,
                Pgtt::Nested => 3,
                Pgtt::PassThrough => 4,
                Pgtt::Reserved(v) => v % 8,
            },
    {
        match self {
            Pgtt::Reserved0 => 0,
            Pgtt::FirstStageOnly => 1,
            Pgtt::SecondStageOnly => 2,
            Pgtt::Nested => 3,
            Pgtt::PassThrough => 4,
            Pgtt::Reserved(v) => v % 8,
        }
    }
}

impl From<u8> for Pgtt {
    fn from(v: u8) -> (r: Self)
        ensures
            r == Pgtt::from_bits(v),
    {
        Pgtt::from_bits(v)
    }
}

impl vstd::std_specs::convert::FromSpecImpl<u8> for Pgtt {
    open spec fn obeys_from_spec() -> bool {
        true
    }

    open spec fn from_spec(v: u8) -> Pgtt {
        Pgtt::from_bits(v)
    }
}

/// Law: encoding a decoded PGTT gives the low three bits back, and
/// decoding an encoding gives the PGTT back unless it is a `Reserved`
/// value that is not itself a reserved 3-bit code (5..=7).
pub proof fn lemma_pgtt_roundtrip(p: Pgtt, v: u8)
    requires
        p matches Pgtt::Reserved(x) ==> 5 <= x < 8,
    ensures
        Pgtt::from_bits(v).bits() == v % 8,
        Pgtt::from_bits(p.bits()) == p,
{
}

/// First-level paging mode (`FLPM`, PASID entry qword 2 bits 3:2).
#[derive(Copy, Clone, Debug, Default, PartialEq, Eq, Structural)]
pub enum Flpm {
    /// 4-level first-stage paging (00b).
    #[default]
    FourLevel,
    /// 5-level first-stage paging (01b).
    FiveLevel,
    /// Reserved encodings (10b/11b).
    Reserved(u8),
}

impl Flpm {
    /// Decode from the raw 2-bit field (the low two bits of `v`).
    #[verifier::allow_in_spec]
    pub fn from_bits(v: u8) -> Flpm
        returns
            match v % 4 {
                0 => Flpm::FourLevel,
                1 => Flpm::FiveLevel,
                other => Flpm::Reserved(other),
            },
    {
        match v % 4 {
            0 => Flpm::FourLevel,
            1 => Flpm::FiveLevel,
            other => Flpm::Reserved(other),
        }
    }

    /// Raw 2-bit encoding.
    #[verifier::allow_in_spec]
    pub fn bits(self) -> u8
        returns
            match self {
                Flpm::FourLevel => 0u8,
                Flpm::FiveLevel => 1,
                Flpm::Reserved(v) => v % 4,
            },
    {
        match self {
            Flpm::FourLevel => 0,
            Flpm::FiveLevel => 1,
            Flpm::Reserved(v) => v % 4,
        }
    }
}

/// Law: encoding a decoded FLPM gives the low two bits back, and decoding
/// an encoding gives the FLPM back unless it is a `Reserved` value other
/// than 2 or 3.
pub proof fn lemma_flpm_roundtrip(f: Flpm, v: u8)
    requires
        f matches Flpm::Reserved(x) ==> 2 <= x < 4,
    ensures
        Flpm::from_bits(v).bits() == v % 4,
        Flpm::from_bits(f.bits()) == f,
{
}

/// Scalable-mode PASID table entry (512 bits).
///
/// * qword 0: `P`, `FPD`, `AW` (4:2), `PGTT` (8:6), `SSADE` (9) and the
///   page-table pointer (63:12).
/// * qword 1: `DID` (15:0), `PGSNP` (24), `CD` (25).
/// * qword 2: `SRE` (0), `FLPM` (3:2), `WPE` (4), `EAFE` (7).
/// * qword 3: reserved.
/// * qwords 4..7: HPT fields (`HPTPTR`, `HPTSZ`, `HPTDID`).
#[derive(Copy, Clone, Debug, Default, PartialEq, Eq)]
pub struct PasidTableEntry {
    /// Qword 0: P, FPD, AW, PGTT, SSADE, page-table pointer.
    pub q0: u64,
    /// Qword 1: DID, PGSNP, CD.
    pub q1: u64,
    /// Qword 2: SRE, FLPM, WPE, EAFE.
    pub q2: u64,
    /// Qword 3: reserved.
    pub q3: u64,
    /// Qwords 4..7: HPT fields (raw when HPT is not in use).
    pub hpt: [u64; 4],
}

impl PasidTableEntry {
    /// An entry with all fields zeroed.
    pub fn new() -> (r: Self)
        ensures
            r.q0 == 0 && r.q1 == 0 && r.q2 == 0 && r.q3 == 0,
            r.hpt@ == seq![0u64, 0u64, 0u64, 0u64],
    {
        PasidTableEntry { q0: 0, q1: 0, q2: 0, q3: 0, hpt: [0, 0, 0, 0] }
    }

    /// Present flag (bit 0).
    #[verifier::allow_in_spec]
    pub fn present(&self) -> bool
        returns
            flag(self.q0, 0),
    {
        get_flag(self.q0, 0)
    }

    /// Set the present flag.
    pub fn with_present(self, p: bool) -> (r: Self)
        ensures
            r == (PasidTableEntry { q0: with_flag(self.q0, 0, p), ..self }),
            r.present() == p,
    {
        proof {
            lemma_flag_with_flag(self.q0, 0, p, 0);
        }
        PasidTableEntry { q0: put_flag(self.q0, 0, p), ..self }
    }

    /// Fault-processing disable (bit 1).
    #[verifier::allow_in_spec]
    pub fn fault_disable(&self) -> bool
        returns
            flag(self.q0, 1),
    {
        get_flag(self.q0, 1)
    }

    /// Second-stage accessed/dirty enable (SSADE, bit 9).
    #[verifier::allow_in_spec]
    pub fn ss_accessed_dirty(&self) -> bool
        returns
            flag(self.q0, 9),
    {
        get_flag(self.q0, 9)
    }

    /// Set second-stage accessed/dirty enable.
    pub fn with_ss_accessed_dirty(self, en: bool) -> (r: Self)
        ensures
            r == (PasidTableEntry { q0: with_flag(self.q0, 9, en), ..self }),
            r.ss_accessed_dirty() == en,
    {
        proof {
            lemma_flag_with_flag(self.q0, 9, en, 9);
        }
        PasidTableEntry { q0: put_flag(self.q0, 9, en), ..self }
    }

    /// PASID granular translation type (PGTT, bits 8:6).
    #[verifier::allow_in_spec]
    pub fn pgtt(&self) -> Pgtt
        returns
            Pgtt::from_bits(field(self.q0, 6, 3) as u8),
    {
        Pgtt::from_bits(extract_bits(self.q0, 8, 6) as u8)
    }

    /// Set the PASID granular translation type.
    pub fn with_pgtt(self, pgtt: Pgtt) -> (r: Self)
        ensures
            r == (PasidTableEntry { q0: with_field(self.q0, 6, 3, pgtt.bits() as u64), ..self }),
            r.pgtt() == Pgtt::from_bits(pgtt.bits()),
    {
        proof {
            lemma_low_mask_values();
            lemma_field_roundtrip(self.q0, 6, 3, pgtt.bits() as u64);
        }
        PasidTableEntry { q0: put_field(self.q0, 6, 3, pgtt.bits() as u64), ..self }
    }

    /// Page-table pointer (bits 63:12, in place). Depending on `PGTT` this
    /// addresses the first-stage, the second-stage or the nested root.
    #[verifier::allow_in_spec]
    pub fn page_table_ptr(&self) -> u64
        returns
            self.q0 & page_ptr_mask(),
    {
        self.q0 & 0xffff_ffff_ffff_f000
    }

    /// Set the page-table pointer; bits 11:0 stay.
    pub fn with_page_table_ptr(self, addr: u64) -> (r: Self)
        ensures
            r == (PasidTableEntry { q0: (self.q0 & 0xfff) | (addr & page_ptr_mask()), ..self }),
            r.page_table_ptr() == addr & page_ptr_mask(),
            r.present() == self.present(),
    {
        proof {
            lemma_ptr_masks(self.q0, addr);
        }
        PasidTableEntry { q0: (self.q0 & 0xfff) | (addr & 0xffff_ffff_ffff_f000), ..self }
    }

    /// Domain identifier (qword 1 bits 15:0).
    #[verifier::allow_in_spec]
    pub fn domain_id(&self) -> u16
        returns
            field(self.q1, 0, 16) as u16,
    {
        get_field(self.q1, 0, 16) as u16
    }

    /// Set the domain identifier.
    pub fn with_domain_id(self, did: u16) -> (r: Self)
        ensures
            r == (PasidTableEntry { q1: with_field(self.q1, 0, 16, did as u64), ..self }),
            r.domain_id() == did,
    {
        proof {
            lemma_low_mask_values();
            lemma_field_roundtrip(self.q1, 0, 16, did as u64);
        }
        PasidTableEntry { q1: put_field(self.q1, 0, 16, did as u64), ..self }
    }

    /// Page-snoop (PGSNP, qword 1 bit 24).
    #[verifier::allow_in_spec]
    pub fn page_snoop(&self) -> bool
        returns
            flag(self.q1, 24),
    {
        get_flag(self.q1, 24)
    }

    /// Cache-disable (CD, qword 1 bit 25).
    #[verifier::allow_in_spec]
    pub fn cache_disable(&self) -> bool
        returns
            flag(self.q1, 25),
    {
        get_flag(self.q1, 25)
    }

    /// Supervisor requests enable (SRE, qword 2 bit 0).
    #[verifier::allow_in_spec]
    pub fn supervisor_requests(&self) -> bool
        returns
            flag(self.q2, 0),
    {
        get_flag(self.q2, 0)
    }

    /// Set supervisor requests enable.
    pub fn with_supervisor_requests(self, en: bool) -> (r: Self)
        ensures
            r == (PasidTableEntry { q2: with_flag(self.q2, 0, en), ..self }),
            r.supervisor_requests() == en,
    {
        proof {
            lemma_flag_with_flag(self.q2, 0, en, 0);
        }
        PasidTableEntry { q2: put_flag(self.q2, 0, en), ..self }
    }

    /// First-level paging mode (FLPM, qword 2 bits 3:2).
    #[verifier::allow_in_spec]
    pub fn flpm(&self) -> Flpm
        returns
            Flpm::from_bits(field(self.q2, 2, 2) as u8),
    {
        Flpm::from_bits(extract_bits(self.q2, 3, 2) as u8)
    }

    /// Set the first-level paging mode.
    pub fn with_flpm(self, flpm: Flpm) -> (r: Self)
        ensures
            r == (PasidTableEntry { q2: with_field(self.q2, 2, 2, flpm.bits() as u64), ..self }),
            r.flpm() == Flpm::from_bits(flpm.bits()),
    {
        proof {
            lemma_low_mask_values();
            lemma_field_roundtrip(self.q2, 2, 2, flpm.bits() as u64);
        }
        PasidTableEntry { q2: put_field(self.q2, 2, 2, flpm.bits() as u64), ..self }
    }

    /// Write-protect enable (WPE, qword 2 bit 4) for supervisor requests.
    #[verifier::allow_in_spec]
    pub fn write_protect_enable(&self) -> bool
        returns
            flag(self.q2, 4),
    {
        get_flag(self.q2, 4)
    }

    /// Extended-accessed-flag enable (EAFE, qword 2 bit 7).
    #[verifier::allow_in_spec]
    pub fn ext_accessed_flag(&self) -> bool
        returns
            flag(self.q2, 7),
    {
        get_flag(self.q2, 7)
    }

    /// HPT size (`hpt[1]` bits 1:0).
    #[verifier::allow_in_spec]
    pub fn hpt_size(&self) -> u8
        returns
            field(self.hpt[1], 0, 2) as u8,
    {
        extract_bits(self.hpt[1], 1, 0) as u8
    }

    /// HPT domain identifier (`hpt[2]` bits 15:0).
    #[verifier::allow_in_spec]
    pub fn hpt_domain_id(&self) -> u16
        returns
            field(self.hpt[2], 0, 16) as u16,
    {
        get_field(self.hpt[2], 0, 16) as u16
    }

    /// HPT root pointer as the raw pair `(hpt[3], hpt[2] bits 11:0)`; the
    /// caller combines the chunks according to the platform HAW.
    pub fn hpt_root_raw(&self) -> (r: (u64, u64))
        ensures
            r == (self.hpt[3], self.hpt[2] & 0xfff),
    {
        (self.hpt[3], self.hpt[2] & 0xfff)
    }

    /// Raw 64 bytes, little-endian, ready to store in the PASID table.
    pub fn into_bytes(self) -> (r: [u8; 64])
        ensures
            le_image(seq![
                        self.q0,
                        self.q1,
                        self.q2,
                        self.q3,
                        self.hpt[0],
                        self.hpt[1],
                        self.hpt[2],
                        self.hpt[3],
                    ], r@),
    {
        let words = [
            self.q0,
            self.q1,
            self.q2,
            self.q3,
            self.hpt[0],
            self.hpt[1],
            self.hpt[2],
            self.hpt[3],
        ];
        let mut out = [0u8; 64];
        let mut i: usize = 0;
        while i < 64
            invariant
                i <= 64,
                words@ == seq![
                    self.q0,
                    self.q1,
                    self.q2,
                    self.q3,
                    self.hpt[0],
                    self.hpt[1],
                    self.hpt[2],
                    self.hpt[3],
                ],
                forall|j: int| 0 <= j < i ==> #[trigger] out[j] == le_byte(words@[j / 8], j % 8),
            decreases 64 - i,
        {
            out[i] = (words[i / 8] >> (8 * (i % 8)) as u64) as u8;
            i += 1;
        }
        proof {
            assert(le_image(words@, out@));
        }
        out
    }
}

/// Read the first `n` little-endian qwords of `bytes`; `None` when fewer
/// than `8 * n` bytes are given.
fn read_qwords(bytes: &[u8], n: usize) -> (r: Option<[u64; 8]>)
    requires
        n <= 8,
    ensures
        r is Some <==> bytes@.len() >= 8 * n,
        r matches Some(v) ==> forall|i: int| 0 <= i < n ==> #[trigger] v[i] == le64_at(bytes@, 8 * i),
{
    if bytes.len() < 8 * n {
        return None;
    }
    let mut out = [0u64; 8];
    let mut i: usize = 0;
    while i < n
        invariant
            i <= n <= 8,
            bytes@.len() >= 8 * n,
            forall|k: int| 0 <= k < i ==> #[trigger] out[k] == le64_at(bytes@, 8 * k),
        decreases n - i,
    {
        let chunk = &bytes[8 * i..8 * i + 8];
        match zc_read_le_u64(chunk) {
            Some(q) => {
                proof {
                    assert(le64_at(chunk@, 0) == le64_at(bytes@, 8 * i as int));
                }
                out[i] = q;
            },
            None => {
                return None;
            },
        }
        i += 1;
    }
    Some(out)
}

/// Interpret the first 16 bytes of `bytes` as a legacy root table entry
/// (two little-endian qwords); `None` when `bytes` is shorter than the
/// entry.
pub fn root_entry(bytes: &[u8]) -> (r: Option<RootEntry>)
    ensures
        r == if bytes@.len() >= 16 {
            Some(RootEntry { low: le64_at(bytes@, 0), high: le64_at(bytes@, 8) })
        } else {
            None::<RootEntry>
        },
{
    match read_qwords(bytes, 2) {
        Some(q) => Some(RootEntry { low: q[0], high: q[1] }),
        None => None,
    }
}

/// Interpret the first 16 bytes of `bytes` as a legacy context entry;
/// `None` when `bytes` is shorter than the entry.
pub fn context_entry(bytes: &[u8]) -> (r: Option<ContextEntry>)
    ensures
        r == if bytes@.len() >= 16 {
            Some(ContextEntry { q0: le64_at(bytes@, 0), q1: le64_at(bytes@, 8) })
        } else {
            None::<ContextEntry>
        },
{
    match read_qwords(bytes, 2) {
        Some(q) => Some(ContextEntry { q0: q[0], q1: q[1] }),
        None => None,
    }
}

/// Interpret the first 32 bytes of `bytes` as a scalable context entry;
/// `None` when `bytes` is shorter than the entry.
pub fn scalable_context_entry(bytes: &[u8]) -> (r: Option<ScalableContextEntry>)
    ensures
        r is Some <==> bytes@.len() >= 32,
        r matches Some(e) ==> {
            &&& e.q0 == le64_at(bytes@, 0)
            &&& e.q1 == le64_at(bytes@, 8)
            &&& e.reserved@ == seq![le64_at(bytes@, 16), le64_at(bytes@, 24)]
        },
{
    match read_qwords(bytes, 4) {
        Some(q) => Some(ScalableContextEntry { q0: q[0], q1: q[1], reserved: [q[2], q[3]] }),
        None => None,
    }
}

/// Interpret the first 64 bytes of `bytes` as a PASID table entry; `None`
/// when `bytes` is shorter than the entry.
pub fn pasid_table_entry(bytes: &[u8]) -> (r: Option<PasidTableEntry>)
    ensures
        r is Some <==> bytes@.len() >= 64,
        r matches Some(e) ==> {
            &&& e.q0 == le64_at(bytes@, 0)
            &&& e.q1 == le64_at(bytes@, 8)
            &&& e.q2 == le64_at(bytes@, 16)
            &&& e.q3 == le64_at(bytes@, 24)
            &&& e.hpt@ == seq![
                le64_at(bytes@, 32),
                le64_at(bytes@, 40),
                le64_at(bytes@, 48),
                le64_at(bytes@, 56),
            ]
        },
{
    match read_qwords(bytes, 8) {
        Some(q) => Some(
            PasidTableEntry {
                q0: q[0],
                q1: q[1],
                q2: q[2],
                q3: q[3],
                hpt: [q[4], q[5], q[6], q[7]],
            },
        ),
        None => None,
    }
}

/// Law: the bytes [`ContextEntry::into_bytes`] gives back are read by
/// [`context_entry`] as the same entry.
pub proof fn lemma_context_entry_bytes_roundtrip(e: ContextEntry, bytes: Seq<u8>)
    requires
        le_image(seq![e.q0, e.q1], bytes),
    ensures
        bytes.len() == 16,
        le64_at(bytes, 0) == e.q0,
        le64_at(bytes, 8) == e.q1,
{
    lemma_le_image_read_back(seq![e.q0, e.q1], bytes);
    assert(le64_at(bytes, 8 * (0 as int)) == e.q0);
    assert(le64_at(bytes, 8 * (1 as int)) == e.q1);
}

/// Law: the bytes [`PasidTableEntry::into_bytes`] gives back are read by
/// [`pasid_table_entry`] as the same entry.
pub proof fn lemma_pasid_table_entry_bytes_roundtrip(e: PasidTableEntry, bytes: Seq<u8>)
    requires
        le_image(
            seq![e.q0, e.q1, e.q2, e.q3, e.hpt[0], e.hpt[1], e.hpt[2], e.hpt[3]],
            bytes,
        ),
    ensures
        bytes.len() == 64,
        le64_at(bytes, 0) == e.q0,
        le64_at(bytes, 8) == e.q1,
        le64_at(bytes, 16) == e.q2,
        le64_at(bytes, 24) == e.q3,
        seq![le64_at(bytes, 32), le64_at(bytes, 40), le64_at(bytes, 48), le64_at(bytes, 56)]
            == e.hpt@,
{
    let ws = seq![e.q0, e.q1, e.q2, e.q3, e.hpt[0], e.hpt[1], e.hpt[2], e.hpt[3]];
    lemma_le_image_read_back(ws, bytes);
    assert(le64_at(bytes, 8 * (0 as int)) == ws[0]);
    assert(le64_at(bytes, 8 * (1 as int)) == ws[1]);
    assert(le64_at(bytes, 8 * (2 as int)) == ws[2]);
    assert(le64_at(bytes, 8 * (3 as int)) == ws[3]);
    assert(le64_at(bytes, 8 * (4 as int)) == ws[4]);
    assert(le64_at(bytes, 8 * (5 as int)) == ws[5]);
    assert(le64_at(bytes, 8 * (6 as int)) == ws[6]);
    assert(le64_at(bytes, 8 * (7 as int)) == ws[7]);
    assert(seq![le64_at(bytes, 32), le64_at(bytes, 40), le64_at(bytes, 48), le64_at(bytes, 56)]
        =~= e.hpt@);
}

/// Number of entries of `entry_size` bytes that fit in a 4 KiB page.
pub fn entries_per_page(entry_size: usize) -> (r: usize)
    requires
        entry_size > 0,
    ensures
        r == 4096usize / entry_size,
{
    4096 / entry_size
}

} // verus!
