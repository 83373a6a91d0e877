//! Peripheral page request (PPR) log entries.
//!
//! PPR log entries are 128 bits with a 4-bit `PPRCode` at dword 1 bits
//! 31:28. The PAGE_SERVICE_REQUEST code (0001b) carries the device id,
//! PASID, request flags, tag and the faulting guest address.
use vstd::prelude::*;

use crate::amd::bits::extract_bits;
use crate::bitfield::{bit32_of, bool_u32, field};

verus! {

/// PPR log entry codes.
#[derive(Copy, Clone, Debug, PartialEq, Eq, Structural)]
pub struct PprCode(pub u8);

impl PprCode {
    /// PAGE_SERVICE_REQUEST (0001b).
    pub const PAGE_SERVICE_REQUEST: u8 = 0x1;

    /// Extract from dword 1 (bits 31:28).
    #[verifier::allow_in_spec]
    pub fn from_dword1(d: u32) -> PprCode
        returns
            PprCode((d >> 28) as u8),
    {
        PprCode((d >> 28) as u8)
    }
}

/// A PAGE_SERVICE_REQUEST PPR log entry.
#[derive(Copy, Clone, Debug, Default, PartialEq, Eq, Structural)]
pub struct PprEntry {
    /// DeviceID of the requester.
    pub device_id: u16,
    /// PASID of the request (20 bits; valid only when `gn` is clear).
    pub pasid: u32,
    /// PPR tag echoed by the COMPLETE_PPR_REQUEST command.
    pub ppr_tag: u16,
    /// Requested guest address.
    pub addr: u64,
    /// GN: guest nested — GPA request, PASID invalid.
    pub gn: bool,
    /// RZ: request with reserved bits set (needs recovery).
    pub rz: bool,
    /// US: user/supervisor requested.
    pub user: bool,
    /// WP: write permission requested.
    pub write: bool,
    /// RP: read permission requested.
    pub read: bool,
    /// NX: execute requested (0 = execute requested).
    pub nx: bool,
}

/// Dword 1 of a PAGE_SERVICE_REQUEST entry.
pub open spec fn ppr_dword1(e: PprEntry) -> u32 {
    ((PprCode::PAGE_SERVICE_REQUEST as u32) << 28) | (bit32_of(e.gn) << 26) | (bit32_of(e.rz)
        << 25) | (bit32_of(e.user) << 24) | (bit32_of(e.write) << 23) | (bit32_of(e.read) << 21)
        | (bit32_of(e.nx) << 20) | (((e.pasid >> 16) & 0xf) << 16) | ((e.ppr_tag as u32) & 0xffff)
}

impl PprEntry {
    /// Encode into the four dwords of the log entry.
    pub fn words(&self) -> (r: [u32; 4])
        ensures
            r[0] == (self.device_id as u32) | ((self.pasid & 0xffff) << 16),
            r[1] == ppr_dword1(*self),
            r[2] == ((self.addr >> 12) as u32) & 0xf_ffff,
            r[3] == (self.addr >> 32) as u32,
    {
        let d0 = (self.device_id as u32) | ((self.pasid & 0xffff) << 16);
        let d1 = ((PprCode::PAGE_SERVICE_REQUEST as u32) << 28) | (bool_u32(self.gn) << 26) | (
        bool_u32(self.rz) << 25) | (bool_u32(self.user) << 24) | (bool_u32(self.write) << 23) | (
        bool_u32(self.read) << 21) | (bool_u32(self.nx) << 20) | (((self.pasid >> 16) & 0xf) << 16)
            | ((self.ppr_tag as u32) & 0xffff);
        let d2 = ((self.addr >> 12) as u32) & 0xf_ffff;
        let d3 = (self.addr >> 32) as u32;
        [d0, d1, d2, d3]
    }

    /// Decode from raw dwords (PAGE_SERVICE_REQUEST format). PASID bits
    /// 19:16 come from dword 1 bits 19:16.
    #[verifier::allow_in_spec]
    pub fn from_words(words: [u32; 4]) -> PprEntry
        returns
            (PprEntry {
                device_id: (words[0] & 0xffff) as u16,
                pasid: (words[0] >> 16) | ((field(words[1] as u64, 16, 4) as u32) << 16),
                ppr_tag: (words[1] & 0xffff) as u16,
                addr: ((words[3] as u64) << 32) | (((words[2] & 0xf_ffff) as u64) << 12),
                gn: words[1] & (1u32 << 26) != 0,
                rz: words[1] & (1u32 << 25) != 0,
                user: words[1] & (1u32 << 24) != 0,
                write: words[1] & (1u32 << 23) != 0,
                read: words[1] & (1u32 << 21) != 0,
                nx: words[1] & (1u32 << 20) != 0,
            }),
    {
        PprEntry {
            device_id: (words[0] & 0xffff) as u16,
            pasid: (words[0] >> 16) | ((extract_bits(words[1] as u64, 19, 16) as u32) << 16),
            ppr_tag: (words[1] & 0xffff) as u16,
            addr: ((words[3] as u64) << 32) | (((words[2] & 0xf_ffff) as u64) << 12),
            gn: words[1] & (1u32 << 26) != 0,
            rz: words[1] & (1u32 << 25) != 0,
            user: words[1] & (1u32 << 24) != 0,
            write: words[1] & (1u32 << 23) != 0,
            read: words[1] & (1u32 << 21) != 0,
            nx: words[1] & (1u32 << 20) != 0,
        }
    }
}

/// How the encoding of a PPR entry decodes, field by field.
proof fn lemma_ppr_bits(
    device_id: u16,
    pasid: u32,
    tag: u16,
    addr: u64,
    gn: bool,
    rz: bool,
    us: bool,
    wp: bool,
    rp: bool,
    nx: bool,
)
    by (bit_vector)
    ensures
        ({
            let d0 = (device_id as u32) | ((pasid & 0xffff) << 16);
            let d1 = ((1u32) << 28) | (bit32_of(gn) << 26) | (bit32_of(rz) << 25) | (bit32_of(us)
                << 24) | (bit32_of(wp) << 23) | (bit32_of(rp) << 21) | (bit32_of(nx) << 20) | (((
            pasid >> 16) & 0xf) << 16) | ((tag as u32) & 0xffff);
            &&& (d0 & 0xffff) as u16 == device_id
            &&& (d0 >> 16) | (((((d1 as u64) >> 16) & 0xf) as u32) << 16) == pasid & 0xf_ffff
            &&& (d1 & 0xffff) as u16 == tag
            &&& (d1 & (1u32 << 26) != 0) == gn
            &&& (d1 & (1u32 << 25) != 0) == rz
            &&& (d1 & (1u32 << 24) != 0) == us
            &&& (d1 & (1u32 << 23) != 0) == wp
            &&& (d1 & (1u32 << 21) != 0) == rp
            &&& (d1 & (1u32 << 20) != 0) == nx
            &&& ((d1 >> 28) as u8) == 1
        }),
        ((((addr >> 32) as u32) as u64) << 32) | ((((((addr >> 12) as u32) & 0xf_ffff) & 0xf_ffff)
            as u64) << 12) == addr & 0xffff_ffff_ffff_f000,
{
}

/// Law: decoding the encoding of a PPR entry gives the entry back, with
/// the address cut to bits 63:12 and the PASID to its 20 bits. The code of
/// the encoding is PAGE_SERVICE_REQUEST.
pub proof fn lemma_ppr_roundtrip(e: PprEntry, w: [u32; 4])
    requires
        w[0] == (e.device_id as u32) | ((e.pasid & 0xffff) << 16),
        w[1] == ppr_dword1(e),
        w[2] == ((e.addr >> 12) as u32) & 0xf_ffff,
        w[3] == (e.addr >> 32) as u32,
    ensures
        PprEntry::from_words(w) == (PprEntry {
            pasid: e.pasid & 0xf_ffff,
            addr: e.addr & 0xffff_ffff_ffff_f000,
            ..e
        }),
        PprCode::from_dword1(w[1]) == PprCode(PprCode::PAGE_SERVICE_REQUEST),
{
    crate::bitfield::lemma_low_mask_values();
    lemma_ppr_bits(e.device_id, e.pasid, e.ppr_tag, e.addr, e.gn, e.rz, e.user, e.write, e.read, e.nx);
}

} // verus!
