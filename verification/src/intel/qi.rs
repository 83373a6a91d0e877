//! Queued invalidation (QI) descriptors.
//!
//! The invalidation queue holds fixed-size descriptors (128-bit when
//! `IQA_REG.DW = 0`, 256-bit when `IQA_REG.DW = 1`). Each descriptor starts
//! with a 7-bit **type** formed by concatenating bits `11:9` and `3:0` of
//! the first qword.
//!
//! | Code | Descriptor                           |
//! |------|--------------------------------------|
//! | 1h   | [`QiCc`] context-cache invalidate    |
//! | 2h   | [`QiIotlb`] IOTLB invalidate         |
//! | 3h   | [`QiDevTlb`] device-TLB invalidate   |
//! | 4h   | [`QiIec`] interrupt entry cache      |
//! | 5h   | [`QiWait`] invalidation wait         |
//! | 6h   | [`QiPiotlb`] PASID-based IOTLB       |
//! | 7h   | [`QiPc`] PASID-cache invalidate      |
//! | 8h   | [`QiDevPiotlb`] PASID-based dev-TLB  |
//! | 9h   | page group response                 |
use vstd::prelude::*;
use vstd::string::StringExecFns;

use crate::text::{digits, push_hex};
use crate::bitfield::{bit_of, bool_u64, field};
use crate::intel::bits::extract_bits;

verus! {

/// Invalidation granularity (`G`) shared by context/PASID-cache/IOTLB
/// descriptors.
#[derive(Copy, Clone, Debug, Default, PartialEq, Eq, Structural)]
pub enum Granularity {
    /// Reserved encoding (00b) — treated as an invalid descriptor.
    #[default]
    Reserved,
    /// Global (01b).
    Global,
    /// Domain-selective (10b).
    Domain,
    /// Page-selective-within-domain (11b) — IOTLB only; for cache
    /// descriptors this means device-selective.
    PageOrDevice,
}

impl Granularity {
    /// Raw 2-bit encoding.
    #[verifier::allow_in_spec]
    pub fn bits(self) -> u8
        returns
            match self {
                Granularity::Reserved => 0u8,
                Granularity::Global => 1,
                Granularity::Domain => 2,
                Granularity::PageOrDevice => 3,
            },
    {
        match self {
            Granularity::Reserved => 0,
            Granularity::Global => 1,
            Granularity::Domain => 2,
            Granularity::PageOrDevice => 3,
        }
    }

    /// Decode from the raw 2-bit field (the low two bits of `v`).
    #[verifier::allow_in_spec]
    pub fn from_bits(v: u8) -> Granularity
        returns
            match v % 4 {
                1 => Granularity::Global,
                2 => Granularity::Domain,
                3 => Granularity::PageOrDevice,
                _ => Granularity::Reserved,
            },
    {
        match v % 4 {
            1 => Granularity::Global,
            2 => Granularity::Domain,
            3 => Granularity::PageOrDevice,
            _ => Granularity::Reserved,
        }
    }
}

/// 7-bit descriptor type (concatenation of bits 11:9 and 3:0).
#[derive(Copy, Clone, Debug, PartialEq, Eq, Structural)]
pub struct QiType(pub u8);

impl QiType {
    /// Context-cache invalidate descriptor.
    pub const CONTEXT_CACHE: u8 = 0x1;
    /// IOTLB invalidate descriptor.
    pub const IOTLB: u8 = 0x2;
    /// Device-TLB invalidate descriptor.
    pub const DEVICE_TLB: u8 = 0x3;
    /// Interrupt entry cache invalidate descriptor.
    pub const INTERRUPT_ENTRY_CACHE: u8 = 0x4;
    /// Invalidation wait descriptor.
    pub const WAIT: u8 = 0x5;
    /// PASID-based IOTLB invalidate descriptor.
    pub const PASID_IOTLB: u8 = 0x6;
    /// PASID-cache invalidate descriptor.
    pub const PASID_CACHE: u8 = 0x7;
    /// PASID-based device-TLB invalidate descriptor.
    pub const PASID_DEVICE_TLB: u8 = 0x8;
    /// Page group response descriptor.
    pub const PAGE_GROUP_RESPONSE: u8 = 0x9;

    /// Extract the type from the first descriptor word.
    #[verifier::allow_in_spec]
    pub fn from_word0(w: u64) -> QiType
        returns
            QiType(((field(w, 9, 3) << 4) | field(w, 0, 4)) as u8),
    {
        QiType(((extract_bits(w, 11, 9) << 4) | extract_bits(w, 3, 0)) as u8)
    }
}

/// The text that describes `t`.
pub open spec fn qi_type_text(t: QiType) -> Seq<char> {
    match t.0 {
        1 => "context-cache invalidate"@,
        2 => "IOTLB invalidate"@,
        3 => "device-TLB invalidate"@,
        4 => "interrupt entry cache invalidate"@,
        5 => "invalidation wait"@,
        6 => "PASID-based IOTLB invalidate"@,
        7 => "PASID-cache invalidate"@,
        8 => "PASID-based device-TLB invalidate"@,
        9 => "page group response"@,
        _ => "unknown (0x"@ + digits(t.0 as nat, 16) + ")"@,
    }
}

impl QiType {
    /// A human-readable name of the descriptor type.
    pub fn describe(&self) -> (r: String)
        ensures
            r@ == qi_type_text(*self),
    {
        let mut s = String::new();
        match self.0 {
            1 => {
                s.append("context-cache invalidate");
            },
            2 => {
                s.append("IOTLB invalidate");
            },
            3 => {
                s.append("device-TLB invalidate");
            },
            4 => {
                s.append("interrupt entry cache invalidate");
            },
            5 => {
                s.append("invalidation wait");
            },
            6 => {
                s.append("PASID-based IOTLB invalidate");
            },
            7 => {
                s.append("PASID-cache invalidate");
            },
            8 => {
                s.append("PASID-based device-TLB invalidate");
            },
            9 => {
                s.append("page group response");
            },
            other => {
                s.append("unknown (0x");
                push_hex(&mut s, other as u64);
                s.append(")");
            },
        }
        s
    }
}

/// Place the 7-bit type `t` into bits 11:9 | 3:0 of word 0.
#[verifier::allow_in_spec]
pub fn type_bits(t: u8) -> u64
    returns
        ((((t as u64) & 0x7f) >> 4) << 9) | (((t as u64) & 0x7f) & 0xf),
{
    let t = (t as u64) & 0x7f;
    ((t >> 4) << 9) | (t & 0xf)
}

/// Law: the type placed by [`type_bits`] is read back by
/// [`QiType::from_word0`] (modulo 128).
pub proof fn lemma_type_bits_roundtrip(t: u8)
    ensures
        QiType::from_word0(type_bits(t)) == QiType(t % 128),
{
    lemma_type_field(t as u64);
}

/// Reading the type of a word made of a type code and operands that stay
/// clear of bits 11:9 and 3:0.
proof fn lemma_type_field(t: u64)
    by (bit_vector)
    ensures
        ((field(type_bits_of(t), 9, 3) << 4) | field(type_bits_of(t), 0, 4)) as u8 == (t & 0x7f)
            as u8,
        (t & 0x7f) as u8 == ((t as u8) % 128),
{
}

/// The word-0 type bits of a type code held in a `u64`.
pub open spec fn type_bits_of(t: u64) -> u64 {
    (((t & 0x7f) >> 4) << 9) | ((t & 0x7f) & 0xf)
}

/// Context-cache invalidate descriptor (128-bit).
///
/// Word 0: type, `G` (5:4), `DID` (31:16), `SID` (47:32), `FM` (49:48).
#[derive(Copy, Clone, Debug, Default, PartialEq, Eq, Structural)]
pub struct QiCc {
    /// Invalidation granularity.
    pub granularity: Granularity,
    /// Domain identifier.
    pub did: u16,
    /// Source identifier.
    pub sid: u16,
    /// Function mask applied to the low bits of `sid`.
    pub fm: u8,
}

/// Word 0 of a context-cache invalidate descriptor.
pub open spec fn cc_word0(g: u8, did: u16, sid: u16, fm: u8) -> u64 {
    type_bits_of(1) | ((g as u64) << 4) | ((did as u64) << 16) | ((sid as u64) << 32) | (((fm
        as u64) & 0x3) << 48)
}

/// How a context-cache descriptor decodes.
proof fn lemma_cc_fields(g: u8, did: u16, sid: u16, fm: u8)
    by (bit_vector)
    requires
        g < 4,
    ensures
        field(cc_word0(g, did, sid, fm), 4, 2) == g as u64,
        field(cc_word0(g, did, sid, fm), 16, 16) as u16 == did,
        field(cc_word0(g, did, sid, fm), 32, 16) as u16 == sid,
        field(cc_word0(g, did, sid, fm), 48, 2) as u8 == fm % 4,
        ((field(cc_word0(g, did, sid, fm), 9, 3) << 4) | field(cc_word0(g, did, sid, fm), 0, 4))
            as u8 == 1,
{
}

impl QiCc {
    /// Build a descriptor.
    pub fn new(granularity: Granularity, did: u16, sid: u16, fm: u8) -> (r: Self)
        ensures
            r == (QiCc { granularity, did, sid, fm }),
    {
        QiCc { granularity, did, sid, fm }
    }

    /// Decode from descriptor words.
    #[verifier::allow_in_spec]
    pub fn from_words(w0: u64, w1: u64) -> QiCc
        returns
            (QiCc {
                granularity: Granularity::from_bits(field(w0, 4, 2) as u8),
                did: field(w0, 16, 16) as u16,
                sid: field(w0, 32, 16) as u16,
                fm: field(w0, 48, 2) as u8,
            }),
    {
        QiCc {
            granularity: Granularity::from_bits(extract_bits(w0, 5, 4) as u8),
            did: extract_bits(w0, 31, 16) as u16,
            sid: extract_bits(w0, 47, 32) as u16,
            fm: extract_bits(w0, 49, 48) as u8,
        }
    }

    /// Encode to descriptor words. Decoding gives the descriptor back with
    /// the function mask cut to its two bits.
    pub fn to_words(&self) -> (r: [u64; 2])
        ensures
            r[0] == cc_word0(self.granularity.bits(), self.did, self.sid, self.fm),
            r[1] == 0,
            QiCc::from_words(r[0], r[1]) == (QiCc { fm: self.fm % 4, ..*self }),
            QiType::from_word0(r[0]) == QiType(QiType::CONTEXT_CACHE),
    {
        proof {
            lemma_cc_fields(self.granularity.bits(), self.did, self.sid, self.fm);
        }
        let w0 = type_bits(QiType::CONTEXT_CACHE) | ((self.granularity.bits() as u64) << 4) | ((
        self.did as u64) << 16) | ((self.sid as u64) << 32) | (((self.fm as u64) & 0x3) << 48);
        [w0, 0]
    }
}

/// IOTLB invalidate descriptor (128-bit).
///
/// Word 0: type, `G` (5:4), `DID` (31:16). Word 1: address (63:12),
/// address mask `AM` (5:0).
#[derive(Copy, Clone, Debug, Default, PartialEq, Eq, Structural)]
pub struct QiIotlb {
    /// Invalidation granularity.
    pub granularity: Granularity,
    /// Domain identifier.
    pub did: u16,
    /// Guest physical address to invalidate (page aligned).
    pub addr: u64,
    /// Address mask: invalidate `2^AM` pages starting at `addr`.
    pub am: u8,
}

/// Word 0 of a descriptor carrying a type, a granularity, a domain id and
/// a 32-bit operand in bits 63:32 (IOTLB, PASID-cache, PASID-IOTLB).
pub open spec fn gdp_word0(t: u64, g: u8, did: u16, pasid: u32) -> u64 {
    type_bits_of(t) | ((g as u64) << 4) | ((did as u64) << 16) | ((pasid as u64) << 32)
}

/// Word 1 of a descriptor carrying a page address and a 6-bit mask.
pub open spec fn addr_am_word1(addr: u64, am: u8) -> u64 {
    (addr & 0xffff_ffff_ffff_f000) | ((am as u64) & 0x3f)
}

/// How the type / granularity / domain / PASID word and the address word
/// decode.
proof fn lemma_gdp_fields(t: u64, g: u8, did: u16, pasid: u32, addr: u64, am: u8)
    by (bit_vector)
    requires
        g < 4,
        t < 16,
    ensures
        field(gdp_word0(t, g, did, pasid), 4, 2) == g as u64,
        field(gdp_word0(t, g, did, pasid), 16, 16) as u16 == did,
        field(gdp_word0(t, g, did, pasid), 32, 32) as u32 == pasid,
        ((field(gdp_word0(t, g, did, pasid), 9, 3) << 4) | field(gdp_word0(t, g, did, pasid), 0, 4))
            as u8 == t as u8,
        addr_am_word1(addr, am) & 0xffff_ffff_ffff_f000 == addr & 0xffff_ffff_ffff_f000,
        field(addr_am_word1(addr, am), 0, 6) as u8 == am % 64,
{
}

impl QiIotlb {
    /// Build a descriptor.
    pub fn new(granularity: Granularity, did: u16, addr: u64, am: u8) -> (r: Self)
        ensures
            r == (QiIotlb { granularity, did, addr, am }),
    {
        QiIotlb { granularity, did, addr, am }
    }

    /// Decode from descriptor words.
    #[verifier::allow_in_spec]
    pub fn from_words(w0: u64, w1: u64) -> QiIotlb
        returns
            (QiIotlb {
                granularity: Granularity::from_bits(field(w0, 4, 2) as u8),
                did: field(w0, 16, 16) as u16,
                addr: w1 & 0xffff_ffff_ffff_f000,
                am: field(w1, 0, 6) as u8,
            }),
    {
        QiIotlb {
            granularity: Granularity::from_bits(extract_bits(w0, 5, 4) as u8),
            did: extract_bits(w0, 31, 16) as u16,
            addr: w1 & 0xffff_ffff_ffff_f000,
            am: extract_bits(w1, 5, 0) as u8,
        }
    }

    /// Encode to descriptor words. Decoding gives the descriptor back with
    /// the address cut to bits 63:12 and the mask to six bits.
    pub fn to_words(&self) -> (r: [u64; 2])
        ensures
            r[0] == gdp_word0(QiType::IOTLB as u64, self.granularity.bits(), self.did, 0),
            r[1] == addr_am_word1(self.addr, self.am),
            QiIotlb::from_words(r[0], r[1]) == (QiIotlb {
                addr: self.addr & 0xffff_ffff_ffff_f000,
                am: self.am % 64,
                ..*self
            }),
            QiType::from_word0(r[0]) == QiType(QiType::IOTLB),
    {
        proof {
            lemma_gdp_fields(2, self.granularity.bits(), self.did, 0, self.addr, self.am);
        }
        let w0 = type_bits(QiType::IOTLB) | ((self.granularity.bits() as u64) << 4) | ((
        self.did as u64) << 16) | ((0u32 as u64) << 32);
        let w1 = (self.addr & 0xffff_ffff_ffff_f000) | ((self.am as u64) & 0x3f);
        [w0, w1]
    }
}

/// Device-TLB invalidate descriptor (128-bit).
///
/// Word 0: type, `SID` (47:32). Word 1: address (63:12), size `S` (0).
#[derive(Copy, Clone, Debug, Default, PartialEq, Eq, Structural)]
pub struct QiDevTlb {
    /// Source identifier of the device whose ATC is invalidated.
    pub sid: u16,
    /// Address to invalidate (page aligned).
    pub addr: u64,
    /// Size hint: `false` = 4 KiB, `true` = the device may flush a larger
    /// range.
    pub oversized: bool,
}

/// How a device-TLB descriptor decodes.
proof fn lemma_dev_tlb_fields(sid: u16, addr: u64, s: bool)
    by (bit_vector)
    ensures
        field(type_bits_of(3) | ((sid as u64) << 32), 32, 16) as u16 == sid,
        ((field(type_bits_of(3) | ((sid as u64) << 32), 9, 3) << 4) | field(
            type_bits_of(3) | ((sid as u64) << 32),
            0,
            4,
        )) as u8 == 3,
        ((addr & 0xffff_ffff_ffff_f000) | bit_of(s)) & 0xffff_ffff_ffff_f000 == addr
            & 0xffff_ffff_ffff_f000,
        (((addr & 0xffff_ffff_ffff_f000) | bit_of(s)) & 1 != 0) == s,
{
}

impl QiDevTlb {
    /// Build a descriptor.
    pub fn new(sid: u16, addr: u64, oversized: bool) -> (r: Self)
        ensures
            r == (QiDevTlb { sid, addr, oversized }),
    {
        QiDevTlb { sid, addr, oversized }
    }

    /// Decode from descriptor words.
    #[verifier::allow_in_spec]
    pub fn from_words(w0: u64, w1: u64) -> QiDevTlb
        returns
            (QiDevTlb {
                sid: field(w0, 32, 16) as u16,
                addr: w1 & 0xffff_ffff_ffff_f000,
                oversized: w1 & 1 != 0,
            }),
    {
        QiDevTlb {
            sid: extract_bits(w0, 47, 32) as u16,
            addr: w1 & 0xffff_ffff_ffff_f000,
            oversized: w1 & 1 != 0,
        }
    }

    /// Encode to descriptor words. Decoding gives the descriptor back with
    /// the address cut to bits 63:12.
    pub fn to_words(&self) -> (r: [u64; 2])
        ensures
            r[0] == type_bits_of(3) | ((self.sid as u64) << 32),
            r[1] == (self.addr & 0xffff_ffff_ffff_f000) | bit_of(self.oversized),
            QiDevTlb::from_words(r[0], r[1]) == (QiDevTlb {
                addr: self.addr & 0xffff_ffff_ffff_f000,
                ..*self
            }),
            QiType::from_word0(r[0]) == QiType(QiType::DEVICE_TLB),
    {
        proof {
            lemma_dev_tlb_fields(self.sid, self.addr, self.oversized);
        }
        let w0 = type_bits(QiType::DEVICE_TLB) | ((self.sid as u64) << 32);
        let w1 = (self.addr & 0xffff_ffff_ffff_f000) | bool_u64(self.oversized);
        [w0, w1]
    }
}

/// Interrupt entry cache invalidate descriptor (128-bit).
///
/// Word 0: type, `G` (bit 4), index mask `IM` (31:27), start index `IIDX`
/// (47:32).
#[derive(Copy, Clone, Debug, Default, PartialEq, Eq, Structural)]
pub struct QiIec {
    /// Global invalidation when set; otherwise index-selective.
    pub global: bool,
    /// First interrupt index to invalidate.
    pub start_index: u16,
    /// Index mask: invalidate `2^IM` contiguous entries.
    pub index_mask: u8,
}

/// Word 0 of an interrupt entry cache descriptor.
pub open spec fn iec_word0(global: bool, start: u16, im: u8) -> u64 {
    type_bits_of(4) | (bit_of(global) << 4) | (((im as u64) & 0x1f) << 27) | ((start as u64)
        << 32)
}

/// How an interrupt entry cache descriptor decodes.
proof fn lemma_iec_fields(global: bool, start: u16, im: u8)
    by (bit_vector)
    ensures
        (field(iec_word0(global, start, im), 4, 1) != 0) == global,
        field(iec_word0(global, start, im), 32, 16) as u16 == start,
        field(iec_word0(global, start, im), 27, 5) as u8 == im % 32,
        ((field(iec_word0(global, start, im), 9, 3) << 4) | field(iec_word0(global, start, im), 0, 4))
            as u8 == 4,
{
}

impl QiIec {
    /// Build a descriptor.
    pub fn new(global: bool, start_index: u16, index_mask: u8) -> (r: Self)
        ensures
            r == (QiIec { global, start_index, index_mask }),
    {
        QiIec { global, start_index, index_mask }
    }

    /// Decode from descriptor words.
    #[verifier::allow_in_spec]
    pub fn from_words(w0: u64, w1: u64) -> QiIec
        returns
            (QiIec {
                global: field(w0, 4, 1) != 0,
                start_index: field(w0, 32, 16) as u16,
                index_mask: field(w0, 27, 5) as u8,
            }),
    {
        QiIec {
            global: extract_bits(w0, 4, 4) != 0,
            start_index: extract_bits(w0, 47, 32) as u16,
            index_mask: extract_bits(w0, 31, 27) as u8,
        }
    }

    /// Encode to descriptor words. Decoding gives the descriptor back with
    /// the index mask cut to five bits.
    pub fn to_words(&self) -> (r: [u64; 2])
        ensures
            r[0] == iec_word0(self.global, self.start_index, self.index_mask),
            r[1] == 0,
            QiIec::from_words(r[0], r[1]) == (QiIec { index_mask: self.index_mask % 32, ..*self }),
            QiType::from_word0(r[0]) == QiType(QiType::INTERRUPT_ENTRY_CACHE),
    {
        proof {
            lemma_iec_fields(self.global, self.start_index, self.index_mask);
        }
        let w0 = type_bits(QiType::INTERRUPT_ENTRY_CACHE) | (bool_u64(self.global) << 4) | (((
        self.index_mask as u64) & 0x1f) << 27) | ((self.start_index as u64) << 32);
        [w0, 0]
    }
}

/// Invalidation wait descriptor (128-bit).
///
/// Word 0: type, `IF` (4), `SW` (5), `FN` (6), status data (63:32).
/// Word 1: status address (63:3, 8-byte aligned).
///
/// * `IF` (bit 4): generate an invalidation completion *event*.
/// * `SW` (bit 5): write the completion **status data** to `status_addr`.
/// * `FN` (bit 6): fence — wait for all prior descriptors.
#[derive(Copy, Clone, Debug, Default, PartialEq, Eq, Structural)]
pub struct QiWait {
    /// Completion through invalidation completion event.
    pub interrupt_flag: bool,
    /// Completion through status-data write.
    pub status_write: bool,
    /// Fence semantics.
    pub fence: bool,
    /// Status data written on completion (when `status_write`).
    pub status_data: u32,
    /// Physical address of the status dword (8-byte aligned, bits 63:3).
    pub status_addr: u64,
}

/// Word 0 of an invalidation wait descriptor.
pub open spec fn wait_word0(iflag: bool, sw: bool, fence: bool, data: u32) -> u64 {
    type_bits_of(5) | (bit_of(iflag) << 4) | (bit_of(sw) << 5) | (bit_of(fence) << 6) | ((
    data as u64) << 32)
}

/// How an invalidation wait descriptor decodes.
proof fn lemma_wait_fields(iflag: bool, sw: bool, fence: bool, data: u32, addr: u64)
    by (bit_vector)
    ensures
        (field(wait_word0(iflag, sw, fence, data), 4, 1) != 0) == iflag,
        (field(wait_word0(iflag, sw, fence, data), 5, 1) != 0) == sw,
        (field(wait_word0(iflag, sw, fence, data), 6, 1) != 0) == fence,
        field(wait_word0(iflag, sw, fence, data), 32, 32) as u32 == data,
        ((field(wait_word0(iflag, sw, fence, data), 9, 3) << 4) | field(
            wait_word0(iflag, sw, fence, data),
            0,
            4,
        )) as u8 == 5,
        (addr & 0xffff_ffff_ffff_fff8) & 0xffff_ffff_ffff_fff8 == addr & 0xffff_ffff_ffff_fff8,
{
}

impl QiWait {
    /// Build a status-write wait descriptor (the address is 8-byte aligned
    /// down).
    pub fn status_write(status_addr: u64, status_data: u32) -> (r: Self)
        ensures
            r == (QiWait {
                interrupt_flag: false,
                status_write: true,
                fence: false,
                status_data,
                status_addr: status_addr & 0xffff_ffff_ffff_fff8,
            }),
    {
        QiWait {
            interrupt_flag: false,
            status_write: true,
            fence: false,
            status_data,
            status_addr: status_addr & 0xffff_ffff_ffff_fff8,
        }
    }

    /// Build a fence descriptor.
    pub fn fence() -> (r: Self)
        ensures
            r == (QiWait {
                interrupt_flag: false,
                status_write: false,
                fence: true,
                status_data: 0,
                status_addr: 0,
            }),
    {
        QiWait {
            interrupt_flag: false,
            status_write: false,
            fence: true,
            status_data: 0,
            status_addr: 0,
        }
    }

    /// Decode from descriptor words.
    #[verifier::allow_in_spec]
    pub fn from_words(w0: u64, w1: u64) -> QiWait
        returns
            (QiWait {
                interrupt_flag: field(w0, 4, 1) != 0,
                status_write: field(w0, 5, 1) != 0,
                fence: field(w0, 6, 1) != 0,
                status_data: field(w0, 32, 32) as u32,
                status_addr: w1 & 0xffff_ffff_ffff_fff8,
            }),
    {
        QiWait {
            interrupt_flag: extract_bits(w0, 4, 4) != 0,
            status_write: extract_bits(w0, 5, 5) != 0,
            fence: extract_bits(w0, 6, 6) != 0,
            status_data: extract_bits(w0, 63, 32) as u32,
            status_addr: w1 & 0xffff_ffff_ffff_fff8,
        }
    }

    /// Encode to descriptor words. Decoding gives the descriptor back with
    /// the status address aligned down to 8 bytes.
    pub fn to_words(&self) -> (r: [u64; 2])
        ensures
            r[0] == wait_word0(self.interrupt_flag, self.status_write, self.fence, self.status_data),
            r[1] == self.status_addr & 0xffff_ffff_ffff_fff8,
            QiWait::from_words(r[0], r[1]) == (QiWait {
                status_addr: self.status_addr & 0xffff_ffff_ffff_fff8,
                ..*self
            }),
            QiType::from_word0(r[0]) == QiType(QiType::WAIT),
    {
        proof {
            lemma_wait_fields(
                self.interrupt_flag,
                self.status_write,
                self.fence,
                self.status_data,
                self.status_addr,
            );
        }
        let w0 = type_bits(QiType::WAIT) | (bool_u64(self.interrupt_flag) << 4) | (bool_u64(
            self.status_write,
        ) << 5) | (bool_u64(self.fence) << 6) | ((self.status_data as u64) << 32);
        let w1 = self.status_addr & 0xffff_ffff_ffff_fff8;
        [w0, w1]
    }
}

/// PASID-cache invalidate descriptor (128-bit form).
///
/// Word 0: type, `G` (5:4), `DID` (31:16), `PASID` (63:32).
#[derive(Copy, Clone, Debug, Default, PartialEq, Eq, Structural)]
pub struct QiPc {
    /// Invalidation granularity.
    pub granularity: Granularity,
    /// Domain identifier.
    pub did: u16,
    /// PASID to invalidate.
    pub pasid: u32,
}

impl QiPc {
    /// Build a descriptor.
    pub fn new(granularity: Granularity, did: u16, pasid: u32) -> (r: Self)
        ensures
            r == (QiPc { granularity, did, pasid }),
    {
        QiPc { granularity, did, pasid }
    }

    /// Decode from descriptor words.
    #[verifier::allow_in_spec]
    pub fn from_words(w0: u64, w1: u64) -> QiPc
        returns
            (QiPc {
                granularity: Granularity::from_bits(field(w0, 4, 2) as u8),
                did: field(w0, 16, 16) as u16,
                pasid: field(w0, 32, 32) as u32,
            }),
    {
        QiPc {
            granularity: Granularity::from_bits(extract_bits(w0, 5, 4) as u8),
            did: extract_bits(w0, 31, 16) as u16,
            pasid: extract_bits(w0, 63, 32) as u32,
        }
    }

    /// Encode to descriptor words. Decoding gives the descriptor back.
    pub fn to_words(&self) -> (r: [u64; 2])
        ensures
            r[0] == gdp_word0(QiType::PASID_CACHE as u64, self.granularity.bits(), self.did, self.pasid),
            r[1] == 0,
            QiPc::from_words(r[0], r[1]) == *self,
            QiType::from_word0(r[0]) == QiType(QiType::PASID_CACHE),
    {
        proof {
            lemma_gdp_fields(7, self.granularity.bits(), self.did, self.pasid, 0, 0);
        }
        let w0 = type_bits(QiType::PASID_CACHE) | ((self.granularity.bits() as u64) << 4) | ((
        self.did as u64) << 16) | ((self.pasid as u64) << 32);
        [w0, 0]
    }
}

/// PASID-based IOTLB invalidate descriptor (128-bit).
///
/// Word 0: type, `G` (5:4), `DID` (31:16), `PASID` (63:32). Word 1:
/// address (63:12), `AM` (5:0).
#[derive(Copy, Clone, Debug, Default, PartialEq, Eq, Structural)]
pub struct QiPiotlb {
    /// Invalidation granularity.
    pub granularity: Granularity,
    /// Domain identifier.
    pub did: u16,
    /// PASID whose IOTLB entries are invalidated.
    pub pasid: u32,
    /// Guest physical address (page aligned).
    pub addr: u64,
    /// Address mask.
    pub am: u8,
}

impl QiPiotlb {
    /// Build a descriptor.
    pub fn new(granularity: Granularity, did: u16, pasid: u32, addr: u64, am: u8) -> (r: Self)
        ensures
            r == (QiPiotlb { granularity, did, pasid, addr, am }),
    {
        QiPiotlb { granularity, did, pasid, addr, am }
    }

    /// Decode from descriptor words.
    #[verifier::allow_in_spec]
    pub fn from_words(w0: u64, w1: u64) -> QiPiotlb
        returns
            (QiPiotlb {
                granularity: Granularity::from_bits(field(w0, 4, 2) as u8),
                did: field(w0, 16, 16) as u16,
                pasid: field(w0, 32, 32) as u32,
                addr: w1 & 0xffff_ffff_ffff_f000,
                am: field(w1, 0, 6) as u8,
            }),
    {
        QiPiotlb {
            granularity: Granularity::from_bits(extract_bits(w0, 5, 4) as u8),
            did: extract_bits(w0, 31, 16) as u16,
            pasid: extract_bits(w0, 63, 32) as u32,
            addr: w1 & 0xffff_ffff_ffff_f000,
            am: extract_bits(w1, 5, 0) as u8,
        }
    }

    /// Encode to descriptor words. Decoding gives the descriptor back with
    /// the address cut to bits 63:12 and the mask to six bits.
    pub fn to_words(&self) -> (r: [u64; 2])
        ensures
            r[0] == gdp_word0(QiType::PASID_IOTLB as u64, self.granularity.bits(), self.did, self.pasid),
            r[1] == addr_am_word1(self.addr, self.am),
            QiPiotlb::from_words(r[0], r[1]) == (QiPiotlb {
                addr: self.addr & 0xffff_ffff_ffff_f000,
                am: self.am % 64,
                ..*self
            }),
            QiType::from_word0(r[0]) == QiType(QiType::PASID_IOTLB),
    {
        proof {
            lemma_gdp_fields(6, self.granularity.bits(), self.did, self.pasid, self.addr, self.am);
        }
        let w0 = type_bits(QiType::PASID_IOTLB) | ((self.granularity.bits() as u64) << 4) | ((
        self.did as u64) << 16) | ((self.pasid as u64) << 32);
        let w1 = (self.addr & 0xffff_ffff_ffff_f000) | ((self.am as u64) & 0x3f);
        [w0, w1]
    }
}

/// PASID-based device-TLB invalidate descriptor (256-bit).
///
/// Word 0: type, global (0), `PASID` (63:32). Word 1: address (63:12),
/// size (11). Word 2: `SID` (47:32), `PFSID` (31:16).
#[derive(Copy, Clone, Debug, Default, PartialEq, Eq, Structural)]
pub struct QiDevPiotlb {
    /// Invalidate all ATC entries for the PASID (global within PASID).
    pub global: bool,
    /// PASID.
    pub pasid: u32,
    /// Address to invalidate (page aligned).
    pub addr: u64,
    /// Size: `2^(S+1)` pages when set, single page otherwise.
    pub size_order: bool,
    /// Source identifier.
    pub sid: u16,
    /// Physical source identifier (SR-IOV VF alias).
    pub pfsid: u16,
}

/// How word 0 of a PASID-based device-TLB descriptor reads: its global bit
/// shares bit 0 with the type field.
proof fn lemma_dev_piotlb_type(global: bool, pasid: u32)
    by (bit_vector)
    ensures
        ((field(type_bits_of(8) | bit_of(global) | ((pasid as u64) << 32), 9, 3) << 4) | field(
            type_bits_of(8) | bit_of(global) | ((pasid as u64) << 32),
            0,
            4,
        )) as u8 == if global {
            9u8
        } else {
            8u8
        },
{
}

impl QiDevPiotlb {
    /// Build a descriptor.
    pub fn new(global: bool, pasid: u32, addr: u64, size_order: bool, sid: u16, pfsid: u16) -> (r:
        Self)
        ensures
            r == (QiDevPiotlb { global, pasid, addr, size_order, sid, pfsid }),
    {
        QiDevPiotlb { global, pasid, addr, size_order, sid, pfsid }
    }

    /// Encode to descriptor words (word 3 is zero). The global bit shares
    /// bit 0 with the type field, so the type reads as 8h only when `global`
    /// is clear.
    pub fn to_words4(&self) -> (r: [u64; 4])
        ensures
            r[0] == type_bits_of(8) | bit_of(self.global) | ((self.pasid as u64) << 32),
            r[1] == (self.addr & 0xffff_ffff_ffff_f000) | (bit_of(self.size_order) << 11),
            r[2] == ((self.sid as u64) << 32) | ((self.pfsid as u64) << 16),
            r[3] == 0,
            QiType::from_word0(r[0]) == QiType(
                if self.global {
                    QiType::PAGE_GROUP_RESPONSE
                } else {
                    QiType::PASID_DEVICE_TLB
                },
            ),
    {
        proof {
            lemma_dev_piotlb_type(self.global, self.pasid);
        }
        let w0 = type_bits(QiType::PASID_DEVICE_TLB) | bool_u64(self.global) | ((self.pasid as u64)
            << 32);
        let w1 = (self.addr & 0xffff_ffff_ffff_f000) | (bool_u64(self.size_order) << 11);
        let w2 = ((self.sid as u64) << 32) | ((self.pfsid as u64) << 16);
        [w0, w1, w2, 0]
    }
}

/// One queued-invalidation descriptor of any shape.
#[derive(Copy, Clone, Debug, PartialEq, Eq, Structural)]
pub enum QiDesc {
    /// Context-cache invalidate.
    ContextCache(QiCc),
    /// IOTLB invalidate.
    Iotlb(QiIotlb),
    /// Device-TLB invalidate.
    DevTlb(QiDevTlb),
    /// Interrupt entry cache invalidate.
    Iec(QiIec),
    /// Invalidation wait.
    Wait(QiWait),
    /// PASID-cache invalidate.
    PasidCache(QiPc),
    /// PASID-based IOTLB invalidate.
    PasidIotlb(QiPiotlb),
    /// PASID-based device-TLB invalidate (256-bit).
    PasidDevTlb(QiDevPiotlb),
}

/// The descriptor as decoding its own 128-bit encoding gives it back:
/// the fields cut to the widths the encoding holds.
pub open spec fn qi_normalized(d: QiDesc) -> QiDesc {
    match d {
        QiDesc::ContextCache(c) => QiDesc::ContextCache(QiCc { fm: c.fm % 4, ..c }),
        QiDesc::Iotlb(c) => QiDesc::Iotlb(
            QiIotlb { addr: c.addr & 0xffff_ffff_ffff_f000, am: c.am % 64, ..c },
        ),
        QiDesc::DevTlb(c) => QiDesc::DevTlb(QiDevTlb { addr: c.addr & 0xffff_ffff_ffff_f000, ..c }),
        QiDesc::Iec(c) => QiDesc::Iec(QiIec { index_mask: c.index_mask % 32, ..c }),
        QiDesc::Wait(c) => QiDesc::Wait(
            QiWait { status_addr: c.status_addr & 0xffff_ffff_ffff_fff8, ..c },
        ),
        QiDesc::PasidCache(c) => QiDesc::PasidCache(c),
        QiDesc::PasidIotlb(c) => QiDesc::PasidIotlb(
            QiPiotlb { addr: c.addr & 0xffff_ffff_ffff_f000, am: c.am % 64, ..c },
        ),
        QiDesc::PasidDevTlb(c) => QiDesc::PasidDevTlb(c),
    }
}

/// The two 64-bit words of the 128-bit form of `d`; for the 256-bit
/// [`QiDesc::PasidDevTlb`], its first word pair.
pub open spec fn qi_word_pair(d: QiDesc) -> (u64, u64) {
    match d {
        QiDesc::ContextCache(d) => (cc_word0(d.granularity.bits(), d.did, d.sid, d.fm), 0),
        QiDesc::Iotlb(d) => (
            gdp_word0(QiType::IOTLB as u64, d.granularity.bits(), d.did, 0),
            addr_am_word1(d.addr, d.am),
        ),
        QiDesc::DevTlb(d) => (
            type_bits_of(3) | ((d.sid as u64) << 32),
            (d.addr & 0xffff_ffff_ffff_f000) | bit_of(d.oversized),
        ),
        QiDesc::Iec(d) => (iec_word0(d.global, d.start_index, d.index_mask), 0),
        QiDesc::Wait(d) => (
            wait_word0(d.interrupt_flag, d.status_write, d.fence, d.status_data),
            d.status_addr & 0xffff_ffff_ffff_fff8,
        ),
        QiDesc::PasidCache(d) => (
            gdp_word0(QiType::PASID_CACHE as u64, d.granularity.bits(), d.did, d.pasid),
            0,
        ),
        QiDesc::PasidIotlb(d) => (
            gdp_word0(QiType::PASID_IOTLB as u64, d.granularity.bits(), d.did, d.pasid),
            addr_am_word1(d.addr, d.am),
        ),
        QiDesc::PasidDevTlb(d) => (
            type_bits_of(8) | bit_of(d.global) | ((d.pasid as u64) << 32),
            (d.addr & 0xffff_ffff_ffff_f000) | (bit_of(d.size_order) << 11),
        ),
    }
}

impl QiDesc {
    /// Descriptor type code.
    #[verifier::allow_in_spec]
    pub fn ty(&self) -> QiType
        returns
            match self {
                QiDesc::ContextCache(_) => QiType(QiType::CONTEXT_CACHE),
                QiDesc::Iotlb(_) => QiType(QiType::IOTLB),
                QiDesc::DevTlb(_) => QiType(QiType::DEVICE_TLB),
                QiDesc::Iec(_) => QiType(QiType::INTERRUPT_ENTRY_CACHE),
                QiDesc::Wait(_) => QiType(QiType::WAIT),
                QiDesc::PasidCache(_) => QiType(QiType::PASID_CACHE),
                QiDesc::PasidIotlb(_) => QiType(QiType::PASID_IOTLB),
                QiDesc::PasidDevTlb(_) => QiType(QiType::PASID_DEVICE_TLB),
            },
    {
        match self {
            QiDesc::ContextCache(_) => QiType(QiType::CONTEXT_CACHE),
            QiDesc::Iotlb(_) => QiType(QiType::IOTLB),
            QiDesc::DevTlb(_) => QiType(QiType::DEVICE_TLB),
            QiDesc::Iec(_) => QiType(QiType::INTERRUPT_ENTRY_CACHE),
            QiDesc::Wait(_) => QiType(QiType::WAIT),
            QiDesc::PasidCache(_) => QiType(QiType::PASID_CACHE),
            QiDesc::PasidIotlb(_) => QiType(QiType::PASID_IOTLB),
            QiDesc::PasidDevTlb(_) => QiType(QiType::PASID_DEVICE_TLB),
        }
    }

    /// Encode as two 64-bit words (128-bit form). A 256-bit descriptor
    /// ([`QiDesc::PasidDevTlb`]) keeps its first word pair and loses the
    /// second; use [`QiDesc::words4`] for it. Every 128-bit descriptor
    /// carries its type in word 0 and decodes back to itself, normalized.
    pub fn words(&self) -> (r: [u64; 2])
        ensures
            !(*self is PasidDevTlb) ==> {
                &&& QiType::from_word0(r[0]) == self.ty()
                &&& QiDesc::from_words(r[0], r[1]) == Some(qi_normalized(*self))
            },
            (r[0], r[1]) == qi_word_pair(*self),
    {
        match self {
            QiDesc::ContextCache(d) => d.to_words(),
            QiDesc::Iotlb(d) => d.to_words(),
            QiDesc::DevTlb(d) => d.to_words(),
            QiDesc::Iec(d) => d.to_words(),
            QiDesc::Wait(d) => d.to_words(),
            QiDesc::PasidCache(d) => d.to_words(),
            QiDesc::PasidIotlb(d) => d.to_words(),
            QiDesc::PasidDevTlb(d) => {
                let w = d.to_words4();
                [w[0], w[1]]
            },
        }
    }

    /// Encode as four 64-bit words (256-bit queue slot): the first two are
    /// the words of [`QiDesc::words`]; a 128-bit descriptor is followed by
    /// two zero words.
    pub fn words4(&self) -> (r: [u64; 4])
        ensures
            (r[0], r[1]) == qi_word_pair(*self),
            match self {
                QiDesc::PasidDevTlb(d) => {
                    &&& r[2] == ((d.sid as u64) << 32) | ((d.pfsid as u64) << 16)
                    &&& r[3] == 0
                },
                _ => {
                    &&& QiType::from_word0(r[0]) == self.ty()
                    &&& QiDesc::from_words(r[0], r[1]) == Some(qi_normalized(*self))
                    &&& r[2] == 0
                    &&& r[3] == 0
                },
            },
    {
        match self {
            QiDesc::PasidDevTlb(d) => d.to_words4(),
            _ => {
                let w = self.words();
                [w[0], w[1], 0, 0]
            },
        }
    }

    /// Decode a 128-bit descriptor from raw words; `None` for the types
    /// without a 128-bit form here.
    #[verifier::allow_in_spec]
    pub fn from_words(w0: u64, w1: u64) -> Option<QiDesc>
        returns
            match QiType::from_word0(w0).0 {
                1 => Some(QiDesc::ContextCache(QiCc::from_words(w0, w1))),
                2 => Some(QiDesc::Iotlb(QiIotlb::from_words(w0, w1))),
                3 => Some(QiDesc::DevTlb(QiDevTlb::from_words(w0, w1))),
                4 => Some(QiDesc::Iec(QiIec::from_words(w0, w1))),
                5 => Some(QiDesc::Wait(QiWait::from_words(w0, w1))),
                7 => Some(QiDesc::PasidCache(QiPc::from_words(w0, w1))),
                6 => Some(QiDesc::PasidIotlb(QiPiotlb::from_words(w0, w1))),
                _ => None,
            },
    {
        let t = QiType::from_word0(w0);
        if t.0 == QiType::CONTEXT_CACHE {
            Some(QiDesc::ContextCache(QiCc::from_words(w0, w1)))
        } else if t.0 == QiType::IOTLB {
            Some(QiDesc::Iotlb(QiIotlb::from_words(w0, w1)))
        } else if t.0 == QiType::DEVICE_TLB {
            Some(QiDesc::DevTlb(QiDevTlb::from_words(w0, w1)))
        } else if t.0 == QiType::INTERRUPT_ENTRY_CACHE {
            Some(QiDesc::Iec(QiIec::from_words(w0, w1)))
        } else if t.0 == QiType::WAIT {
            Some(QiDesc::Wait(QiWait::from_words(w0, w1)))
        } else if t.0 == QiType::PASID_CACHE {
            Some(QiDesc::PasidCache(QiPc::from_words(w0, w1)))
        } else if t.0 == QiType::PASID_IOTLB {
            Some(QiDesc::PasidIotlb(QiPiotlb::from_words(w0, w1)))
        } else {
            None
        }
    }

    /// Number of 16-byte slots this descriptor occupies in the queue.
    pub fn slot_count(&self) -> (r: usize)
        ensures
            r == if *self is PasidDevTlb {
                2usize
            } else {
                1usize
            },
    {
        match self {
            QiDesc::PasidDevTlb(_) => 2,
            _ => 1,
        }
    }
}

} // verus!
