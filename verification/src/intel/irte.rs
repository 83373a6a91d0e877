//! Interrupt remapping table entries.
//!
//! Interrupt remapping translates interrupt requests through the interrupt
//! remapping table. The entry layout depends on the mode bit (`IM`):
//!
//! * **Remapped** (`IM` = 0): the interrupt is re-injected with a new
//!   destination and vector.
//! * **Posted** (`IM` = 1): the interrupt is recorded into a posted
//!   interrupt descriptor in memory.
//!
//! Both formats are 128 bits.
use vstd::prelude::*;
use vstd::string::StringExecFns;

use crate::text::{digits, push_decimal};
use crate::bitfield::{
    field,
    flag,
    get_field,
    get_flag,
    lemma_field_roundtrip,
    lemma_flag_with_flag,
    lemma_low_mask_values,
    put_field,
    put_flag,
    with_field,
    with_flag,
};
use crate::intel::bits::extract_bits;

verus! {

/// IRTE mode (bit 15): remapped or posted.
#[derive(Copy, Clone, Debug, Default, PartialEq, Eq, Structural)]
pub enum IrteMode {
    /// Remapped format (0).
    #[default]
    Remapped,
    /// Posted format (1).
    Posted,
}

impl IrteMode {
    /// Decode from bit 15.
    #[verifier::allow_in_spec]
    pub fn from_bit(im: bool) -> IrteMode
        returns
            if im {
                IrteMode::Posted
            } else {
                IrteMode::Remapped
            },
    {
        if im {
            IrteMode::Posted
        } else {
            IrteMode::Remapped
        }
    }
}

/// Delivery mode (`DLM`, bits 7:5 of a remapped IRTE).
#[derive(Copy, Clone, Debug, Default, PartialEq, Eq, Structural)]
pub enum DeliveryMode {
    /// `000b` — deliver to all indicated agents (edge or level).
    #[default]
    Fixed,
    /// `001b` — deliver to one agent of lowest priority.
    LowestPriority,
    /// `010b` — system management interrupt (edge).
    Smi,
    /// `100b` — non-maskable interrupt (edge).
    Nmi,
    /// `101b` — INIT (edge).
    Init,
    /// `111b` — ExtINT, 8259A compatibility (edge).
    ExtInt,
    /// Any other / reserved encoding.
    Reserved(u8),
}

/// The text that describes `m`.
pub open spec fn delivery_mode_text(m: DeliveryMode) -> Seq<char> {
    match m {
        DeliveryMode::Fixed => "fixed"@,
        DeliveryMode::LowestPriority => "lowest-priority"@,
        DeliveryMode::Smi => "smi"@,
        DeliveryMode::Nmi => "nmi"@,
        DeliveryMode::Init => "init"@,
        DeliveryMode::ExtInt => "extint"@,
        DeliveryMode::Reserved(v) => "reserved("@ + digits(v as nat, 10) + ")"@,
    }
}

impl DeliveryMode {
    /// A human-readable name of the delivery mode.
    pub fn describe(&self) -> (r: String)
        ensures
            r@ == delivery_mode_text(*self),
    {
        let mut s = String::new();
        match self {
            DeliveryMode::Fixed => {
                s.append("fixed");
            },
            DeliveryMode::LowestPriority => {
                s.append("lowest-priority");
            },
            DeliveryMode::Smi => {
                s.append("smi");
            },
            DeliveryMode::Nmi => {
                s.append("nmi");
            },
            DeliveryMode::Init => {
                s.append("init");
            },
            DeliveryMode::ExtInt => {
                s.append("extint");
            },
            DeliveryMode::Reserved(v) => {
                s.append("reserved(");
                push_decimal(&mut s, *v as u64);
                s.append(")");
            },
        }
        s
    }
}

impl DeliveryMode {
    /// Decode from the raw 3-bit field (the low three bits of `v`).
    #[verifier::allow_in_spec]
    pub fn from_bits(v: u8) -> DeliveryMode
        returns
            match v % 8 {
                0 => DeliveryMode::Fixed,
                1 => DeliveryMode::LowestPriority,
                2 => DeliveryMode::Smi,
                4 => DeliveryMode::Nmi,
                5 => DeliveryMode::Init,
                7 => DeliveryMode::ExtInt,
                other => DeliveryMode::Reserved(other),
            },
    {
        match v % 8 {
            0 => DeliveryMode::Fixed,
            1 => DeliveryMode::LowestPriority,
            2 => DeliveryMode::Smi,
            4 => DeliveryMode::Nmi,
            5 => DeliveryMode::Init,
            7 => DeliveryMode::ExtInt,
            other => DeliveryMode::Reserved(other),
        }
    }

    /// Raw 3-bit encoding.
    #[verifier::allow_in_spec]
    pub fn bits(self) -> u8
        returns
            match self {
                DeliveryMode::Fixed => 0u8,
                DeliveryMode::LowestPriority => 1,
                DeliveryMode::Smi => 2,
                DeliveryMode::Nmi => 4,
                DeliveryMode::Init => 5,
                DeliveryMode::ExtInt => 7,
                DeliveryMode::Reserved(v) => v % 8,
            },
    {
        match self {
            DeliveryMode::Fixed => 0,
            DeliveryMode::LowestPriority => 1,
            DeliveryMode::Smi => 2,
            DeliveryMode::Nmi => 4,
            DeliveryMode::Init => 5,
            DeliveryMode::ExtInt => 7,
            DeliveryMode::Reserved(v) => v % 8,
        }
    }
}

/// Law: encoding a decoded delivery mode gives the low three bits back,
/// and decoding an encoding gives the mode back unless it is a `Reserved`
/// value other than the reserved codes 3 and 6.
pub proof fn lemma_delivery_mode_roundtrip(m: DeliveryMode, v: u8)
    requires
        m matches DeliveryMode::Reserved(x) ==> x == 3 || x == 6,
    ensures
        DeliveryMode::from_bits(v).bits() == v % 8,
        DeliveryMode::from_bits(m.bits()) == m,
{
}

/// Source validation type (`SVT`, bits 83:82).
#[derive(Copy, Clone, Debug, Default, PartialEq, Eq, Structural)]
pub enum SourceValidationType {
    /// `00b` — no source-id validation.
    #[default]
    NoValidation,
    /// `01b` — reserved encoding.
    Reserved01,
    /// `10b` — verify bus (most significant 8 bits of requester id).
    VerifyBus,
    /// `11b` — verify full requester id (bus + device + function).
    VerifyFull,
}

impl SourceValidationType {
    /// Decode from the raw 2-bit field (the low two bits of `v`).
    #[verifier::allow_in_spec]
    pub fn from_bits(v: u8) -> SourceValidationType
        returns
            match v % 4 {
                0 => SourceValidationType::NoValidation,
                1 => SourceValidationType::Reserved01,
                2 => SourceValidationType::VerifyBus,
                _ => SourceValidationType::VerifyFull,
            },
    {
        match v % 4 {
            0 => SourceValidationType::NoValidation,
            1 => SourceValidationType::Reserved01,
            2 => SourceValidationType::VerifyBus,
            _ => SourceValidationType::VerifyFull,
        }
    }

    /// Raw 2-bit encoding.
    #[verifier::allow_in_spec]
    pub fn bits(self) -> u8
        returns
            match self {
                SourceValidationType::NoValidation => 0u8,
                SourceValidationType::Reserved01 => 1,
                SourceValidationType::VerifyBus => 2,
                SourceValidationType::VerifyFull => 3,
            },
    {
        match self {
            SourceValidationType::NoValidation => 0,
            SourceValidationType::Reserved01 => 1,
            SourceValidationType::VerifyBus => 2,
            SourceValidationType::VerifyFull => 3,
        }
    }
}

/// Source qualifier (`SQ`, bits 81:80) — which part of the requester id is
/// compared during source validation.
#[derive(Copy, Clone, Debug, Default, PartialEq, Eq, Structural)]
pub enum SourceQualifier {
    /// `00b` — compare the full 16-bit source id.
    #[default]
    FullId,
    /// `01b` — compare bus + device, ignore function.
    IgnoreFunction,
    /// `10b` — compare bus only.
    BusOnly,
    /// `11b` — reserved.
    Reserved,
}

impl SourceQualifier {
    /// Decode from the raw 2-bit field (the low two bits of `v`).
    #[verifier::allow_in_spec]
    pub fn from_bits(v: u8) -> SourceQualifier
        returns
            match v % 4 {
                0 => SourceQualifier::FullId,
                1 => SourceQualifier::IgnoreFunction,
                2 => SourceQualifier::BusOnly,
                _ => SourceQualifier::Reserved,
            },
    {
        match v % 4 {
            0 => SourceQualifier::FullId,
            1 => SourceQualifier::IgnoreFunction,
            2 => SourceQualifier::BusOnly,
            _ => SourceQualifier::Reserved,
        }
    }

    /// Raw 2-bit encoding.
    #[verifier::allow_in_spec]
    pub fn bits(self) -> u8
        returns
            match self {
                SourceQualifier::FullId => 0u8,
                SourceQualifier::IgnoreFunction => 1,
                SourceQualifier::BusOnly => 2,
                SourceQualifier::Reserved => 3,
            },
    {
        match self {
            SourceQualifier::FullId => 0,
            SourceQualifier::IgnoreFunction => 1,
            SourceQualifier::BusOnly => 2,
            SourceQualifier::Reserved => 3,
        }
    }
}

/// Law: the source validation and source qualifier codes round-trip.
pub proof fn lemma_source_codes_roundtrip(t: SourceValidationType, q: SourceQualifier, v: u8)
    ensures
        SourceValidationType::from_bits(t.bits()) == t,
        SourceValidationType::from_bits(v).bits() == v % 4,
        SourceQualifier::from_bits(q.bits()) == q,
        SourceQualifier::from_bits(v).bits() == v % 4,
{
}

/// The posted descriptor address the two words of an entry hold:
/// bits 63:32 from the high qword, bits 31:6 from low qword bits 63:38.
pub open spec fn posted_addr(low: u64, high: u64) -> u64 {
    (((field(high, 32, 32) as u32) as u64) << 32) | ((((field(low, 38, 26) as u32) << 6) as u32)
        as u64)
}

/// How the posted descriptor address is split and joined again.
proof fn lemma_posted_addr(low: u64, high: u64, addr: u64)
    by (bit_vector)
    ensures
        posted_addr(
            with_flag(with_field(low, 38, 26, addr >> 6), 15, true),
            with_field(high, 32, 32, addr >> 32),
        ) == addr & 0xffff_ffff_ffff_ffc0,
        ((((field(low, 38, 26) as u32) << 6) as u32) & 0x3f) == 0,
{
}

/// One interrupt remapping table entry (128 bits).
#[derive(Copy, Clone, Debug, Default, PartialEq, Eq, Structural)]
pub struct Irte {
    /// Low qword (entry bits 63:0).
    pub low: u64,
    /// High qword (entry bits 127:64): SID, SQ, SVT (+ PDA for posted).
    pub high: u64,
}

impl Irte {
    /// Start building a remapped-format entry (all zero).
    pub fn new_remapped() -> (r: Self)
        ensures
            r == (Irte { low: 0, high: 0 }),
    {
        Irte { low: 0, high: 0 }
    }

    /// Start building a posted-format entry (`IM` = 1).
    pub fn new_posted() -> (r: Self)
        ensures
            r == (Irte { low: 1u64 << 15, high: 0 }),
    {
        Irte { low: 1u64 << 15, high: 0 }
    }

    /// IRTE mode (bit 15).
    #[verifier::allow_in_spec]
    pub fn mode(&self) -> IrteMode
        returns
            IrteMode::from_bit(flag(self.low, 15)),
    {
        IrteMode::from_bit(get_flag(self.low, 15))
    }

    /// Present flag (bit 0).
    #[verifier::allow_in_spec]
    pub fn present(&self) -> bool
        returns
            flag(self.low, 0),
    {
        get_flag(self.low, 0)
    }

    /// Set the present flag.
    pub fn with_present(self, p: bool) -> (r: Self)
        ensures
            r == (Irte { low: with_flag(self.low, 0, p), ..self }),
            r.present() == p,
            r.mode() == self.mode(),
    {
        proof {
            lemma_flag_with_flag(self.low, 0, p, 15);
        }
        Irte { low: put_flag(self.low, 0, p), ..self }
    }

    /// Fault processing disable (bit 1).
    #[verifier::allow_in_spec]
    pub fn fault_disable(&self) -> bool
        returns
            flag(self.low, 1),
    {
        get_flag(self.low, 1)
    }

    /// Destination mode (bit 2, remapped): physical (0) / logical (1).
    #[verifier::allow_in_spec]
    pub fn destination_mode_logical(&self) -> bool
        returns
            flag(self.low, 2),
    {
        get_flag(self.low, 2)
    }

    /// Redirection hint (bit 3, remapped).
    #[verifier::allow_in_spec]
    pub fn redirection_hint(&self) -> bool
        returns
            flag(self.low, 3),
    {
        get_flag(self.low, 3)
    }

    /// Trigger mode (bit 4, remapped): edge (0) / level (1).
    #[verifier::allow_in_spec]
    pub fn trigger_mode_level(&self) -> bool
        returns
            flag(self.low, 4),
    {
        get_flag(self.low, 4)
    }

    /// Set the trigger mode.
    pub fn with_trigger_mode_level(self, level: bool) -> (r: Self)
        ensures
            r == (Irte { low: with_flag(self.low, 4, level), ..self }),
            r.trigger_mode_level() == level,
    {
        proof {
            lemma_flag_with_flag(self.low, 4, level, 4);
        }
        Irte { low: put_flag(self.low, 4, level), ..self }
    }

    /// Delivery mode (bits 7:5, remapped).
    #[verifier::allow_in_spec]
    pub fn delivery_mode(&self) -> DeliveryMode
        returns
            DeliveryMode::from_bits(field(self.low, 5, 3) as u8),
    {
        DeliveryMode::from_bits(extract_bits(self.low, 7, 5) as u8)
    }

    /// Set the delivery mode.
    pub fn with_delivery_mode(self, dlm: DeliveryMode) -> (r: Self)
        ensures
            r == (Irte { low: with_field(self.low, 5, 3, dlm.bits() as u64), ..self }),
            r.delivery_mode() == DeliveryMode::from_bits(dlm.bits()),
    {
        proof {
            lemma_low_mask_values();
            lemma_field_roundtrip(self.low, 5, 3, dlm.bits() as u64);
        }
        Irte { low: put_field(self.low, 5, 3, dlm.bits() as u64), ..self }
    }

    /// Interrupt vector (bits 23:16, remapped) / virtual vector (posted).
    #[verifier::allow_in_spec]
    pub fn vector(&self) -> u8
        returns
            field(self.low, 16, 8) as u8,
    {
        extract_bits(self.low, 23, 16) as u8
    }

    /// Set the interrupt vector.
    pub fn with_vector(self, vector: u8) -> (r: Self)
        ensures
            r == (Irte { low: with_field(self.low, 16, 8, vector as u64), ..self }),
            r.vector() == vector,
    {
        proof {
            lemma_low_mask_values();
            lemma_field_roundtrip(self.low, 16, 8, vector as u64);
        }
        Irte { low: put_field(self.low, 16, 8, vector as u64), ..self }
    }

    /// Destination ID (bits 63:32, remapped).
    #[verifier::allow_in_spec]
    pub fn destination_id(&self) -> u32
        returns
            field(self.low, 32, 32) as u32,
    {
        extract_bits(self.low, 63, 32) as u32
    }

    /// Set the destination ID.
    pub fn with_destination(self, dst: u32) -> (r: Self)
        ensures
            r == (Irte { low: with_field(self.low, 32, 32, dst as u64), ..self }),
            r.destination_id() == dst,
    {
        proof {
            lemma_low_mask_values();
            lemma_field_roundtrip(self.low, 32, 32, dst as u64);
        }
        Irte { low: put_field(self.low, 32, 32, dst as u64), ..self }
    }

    /// Source identifier (bits 79:64 = high qword bits 15:0).
    #[verifier::allow_in_spec]
    pub fn source_id(&self) -> u16
        returns
            field(self.high, 0, 16) as u16,
    {
        get_field(self.high, 0, 16) as u16
    }

    /// Set the source identifier.
    pub fn with_source_id(self, sid: u16) -> (r: Self)
        ensures
            r == (Irte { high: with_field(self.high, 0, 16, sid as u64), ..self }),
            r.source_id() == sid,
    {
        proof {
            lemma_low_mask_values();
            lemma_field_roundtrip(self.high, 0, 16, sid as u64);
        }
        Irte { high: put_field(self.high, 0, 16, sid as u64), ..self }
    }

    /// Source qualifier (bits 81:80).
    #[verifier::allow_in_spec]
    pub fn source_qualifier(&self) -> SourceQualifier
        returns
            SourceQualifier::from_bits(field(self.high, 16, 2) as u8),
    {
        SourceQualifier::from_bits(extract_bits(self.high, 17, 16) as u8)
    }

    /// Set the source qualifier.
    pub fn with_source_qualifier(self, sq: SourceQualifier) -> (r: Self)
        ensures
            r == (Irte { high: with_field(self.high, 16, 2, sq.bits() as u64), ..self }),
            r.source_qualifier() == sq,
    {
        proof {
            lemma_low_mask_values();
            lemma_field_roundtrip(self.high, 16, 2, sq.bits() as u64);
        }
        Irte { high: put_field(self.high, 16, 2, sq.bits() as u64), ..self }
    }

    /// Source validation type (bits 83:82).
    #[verifier::allow_in_spec]
    pub fn source_validation(&self) -> SourceValidationType
        returns
            SourceValidationType::from_bits(field(self.high, 18, 2) as u8),
    {
        SourceValidationType::from_bits(extract_bits(self.high, 19, 18) as u8)
    }

    /// Set the source validation type.
    pub fn with_source_validation(self, svt: SourceValidationType) -> (r: Self)
        ensures
            r == (Irte { high: with_field(self.high, 18, 2, svt.bits() as u64), ..self }),
            r.source_validation() == svt,
    {
        proof {
            lemma_low_mask_values();
            lemma_field_roundtrip(self.high, 18, 2, svt.bits() as u64);
        }
        Irte { high: put_field(self.high, 18, 2, svt.bits() as u64), ..self }
    }

    /// Urgent flag (bit 14, posted).
    #[verifier::allow_in_spec]
    pub fn urgent(&self) -> bool
        returns
            flag(self.low, 14),
    {
        get_flag(self.low, 14)
    }

    /// Set the urgent flag.
    pub fn with_urgent(self, urg: bool) -> (r: Self)
        ensures
            r == (Irte { low: with_flag(self.low, 14, urg), ..self }),
            r.urgent() == urg,
    {
        proof {
            lemma_flag_with_flag(self.low, 14, urg, 14);
        }
        Irte { low: put_flag(self.low, 14, urg), ..self }
    }

    /// Posted descriptor address low part: bits 63:38 give PDA[31:6].
    #[verifier::allow_in_spec]
    pub fn posted_addr_low(&self) -> u32
        returns
            ((field(self.low, 38, 26) as u32) << 6) as u32,
    {
        (extract_bits(self.low, 63, 38) as u32) << 6
    }

    /// Posted descriptor address high part: bits 127:96 give PDA[63:32].
    #[verifier::allow_in_spec]
    pub fn posted_addr_high(&self) -> u32
        returns
            field(self.high, 32, 32) as u32,
    {
        extract_bits(self.high, 63, 32) as u32
    }

    /// Full 64-byte aligned posted interrupt descriptor address.
    #[verifier::allow_in_spec]
    pub fn posted_descriptor_addr(&self) -> u64
        returns
            posted_addr(self.low, self.high),
    {
        ((self.posted_addr_high() as u64) << 32) | (self.posted_addr_low() as u64)
    }

    /// Set the posted interrupt descriptor address (the low 6 bits are
    /// implied zero) and the posted mode bit. The address reads back with
    /// its low 6 bits cleared.
    pub fn with_posted_descriptor_addr(self, addr: u64) -> (r: Self)
        ensures
            r == (Irte {
                low: with_flag(with_field(self.low, 38, 26, addr >> 6), 15, true),
                high: with_field(self.high, 32, 32, addr >> 32),
            }),
            r.posted_descriptor_addr() == addr & 0xffff_ffff_ffff_ffc0,
            r.mode() == IrteMode::Posted,
            r.posted_addr_low() & 0x3f == 0,
    {
        let low = put_field(self.low, 38, 26, addr >> 6);
        proof {
            lemma_posted_addr(self.low, self.high, addr);
            lemma_flag_with_flag(low, 15, true, 15);
            lemma_posted_addr(with_flag(low, 15, true), self.high, addr);
        }
        Irte { low: put_flag(low, 15, true), high: put_field(self.high, 32, 32, addr >> 32) }
    }

    /// Raw words.
    pub fn words(&self) -> (r: [u64; 2])
        ensures
            r@ == seq![self.low, self.high],
    {
        [self.low, self.high]
    }
}

} // verus!
