//! Event log entries.
//!
//! Event log entries are 128 bits. Dword 0 carries the DeviceID (15:0)
//! and flag bits (27:16); dword 1 carries the event code (31:28) and, for
//! fault events, the 20-bit domain id (19:0); dwords 2/3 carry the faulting
//! address.
use vstd::prelude::*;

use crate::bitfield::{bit32_of, bool_u32};

verus! {

/// Event codes.
#[derive(Copy, Clone, Debug, PartialEq, Eq, Structural)]
pub struct EventCode(pub u8);

impl EventCode {
    /// ILLEGAL_DEVICE_EVENT.
    pub const ILLEGAL_DEVICE: u8 = 0x1;
    /// IO_PAGE_FAULT.
    pub const IO_PAGE_FAULT: u8 = 0x2;
    /// DEV_TAB_HARDWARE_ERROR.
    pub const DEV_TAB_HARDWARE_ERROR: u8 = 0x3;
    /// PAGE_TAB_HARDWARE_ERROR.
    pub const PAGE_TAB_HARDWARE_ERROR: u8 = 0x4;
    /// ILLEGAL_COMMAND_ERROR.
    pub const ILLEGAL_COMMAND_ERROR: u8 = 0x5;
    /// COMMAND_HARDWARE_ERROR.
    pub const COMMAND_HARDWARE_ERROR: u8 = 0x6;
    /// IOTLB_INV_TIMEOUT.
    pub const IOTLB_INV_TIMEOUT: u8 = 0x7;
    /// INVALID_DEVICE_REQUEST.
    pub const INVALID_DEVICE_REQUEST: u8 = 0x8;
    /// INVALID_PPR_REQUEST.
    pub const INVALID_PPR_REQUEST: u8 = 0x9;
    /// RMP_FAULT (SEV-SNP).
    pub const RMP_FAULT: u8 = 0xd;
    /// RMP_HARDWARE_ERROR (SEV-SNP).
    pub const RMP_HARDWARE_ERROR: u8 = 0xe;

    /// Extract from dword 1 (bits 31:28).
    #[verifier::allow_in_spec]
    pub fn from_dword1(d: u32) -> EventCode
        returns
            EventCode((d >> 28) as u8),
    {
        EventCode((d >> 28) as u8)
    }
}

/// IO_PAGE_FAULT event payload.
#[derive(Copy, Clone, Debug, Default, PartialEq, Eq, Structural)]
pub struct PageFaultEvent {
    /// DeviceID of the faulting device.
    pub device_id: u16,
    /// Domain id (20 bits in dword 1).
    pub domain_id: u32,
    /// Faulting address.
    pub addr: u64,
    /// RW flag: transaction was a write.
    pub write: bool,
    /// PR flag: permission violation.
    pub permission: bool,
    /// RS flag: reserved bit violation.
    pub reserved: bool,
    /// RZ flag: translate-request with PASID zero.
    pub rz: bool,
    /// NX flag: no-execute violation.
    pub nx: bool,
    /// GN flag: guest nested (GPA address).
    pub guest_nested: bool,
    /// TR flag: translation request.
    pub translation: bool,
    /// Interrupt flag: interrupt remapping fault.
    pub interrupt: bool,
}

/// Dword 0 of an IO_PAGE_FAULT entry: DeviceID and the flag bits 23:16.
pub open spec fn page_fault_dword0(f: PageFaultEvent) -> u32 {
    (f.device_id as u32) | (bit32_of(f.guest_nested) << 16) | (bit32_of(f.nx) << 17) | (bit32_of(
        f.rz,
    ) << 18) | (bit32_of(f.translation) << 19) | (bit32_of(f.reserved) << 20) | (bit32_of(
        f.permission,
    ) << 21) | (bit32_of(f.write) << 22) | (bit32_of(f.interrupt) << 23)
}

/// The IO_PAGE_FAULT payload held by four event dwords.
pub open spec fn page_fault_of_words(words: [u32; 4]) -> PageFaultEvent {
    PageFaultEvent {
        device_id: (words[0] & 0xffff) as u16,
        domain_id: words[1] & 0xf_ffff,
        addr: ((words[3] as u64) << 32) | (((words[2] & 0xf_ffff) as u64) << 12),
        guest_nested: words[0] & (1u32 << 16) != 0,
        nx: words[0] & (1u32 << 17) != 0,
        rz: words[0] & (1u32 << 18) != 0,
        translation: words[0] & (1u32 << 19) != 0,
        reserved: words[0] & (1u32 << 20) != 0,
        permission: words[0] & (1u32 << 21) != 0,
        write: words[0] & (1u32 << 22) != 0,
        interrupt: words[0] & (1u32 << 23) != 0,
    }
}

impl PageFaultEvent {
    /// Encode into the four dwords of the event entry.
    pub fn words(&self) -> (r: [u32; 4])
        ensures
            r[0] == page_fault_dword0(*self),
            r[1] == ((EventCode::IO_PAGE_FAULT as u32) << 28) | (self.domain_id & 0xf_ffff),
            r[2] == ((self.addr >> 12) as u32) & 0xf_ffff,
            r[3] == (self.addr >> 32) as u32,
            r[0] & 0xffff == self.device_id as u32,
            (r[0] & 0x1_0000 != 0) == self.guest_nested,
            (r[0] & 0x2_0000 != 0) == self.nx,
            (r[0] & 0x4_0000 != 0) == self.rz,
            (r[0] & 0x8_0000 != 0) == self.translation,
            (r[0] & 0x10_0000 != 0) == self.reserved,
            (r[0] & 0x20_0000 != 0) == self.permission,
            (r[0] & 0x40_0000 != 0) == self.write,
            (r[0] & 0x80_0000 != 0) == self.interrupt,
            r[1] >> 28 == 2,
    {
        proof {
            lemma_page_fault_flag_bits(*self);
        }
        let d0 = (self.device_id as u32) | (bool_u32(self.guest_nested) << 16) | (bool_u32(self.nx)
            << 17) | (bool_u32(self.rz) << 18) | (bool_u32(self.translation) << 19) | (bool_u32(
            self.reserved,
        ) << 20) | (bool_u32(self.permission) << 21) | (bool_u32(self.write) << 22) | (bool_u32(
            self.interrupt,
        ) << 23);
        let d1 = ((EventCode::IO_PAGE_FAULT as u32) << 28) | (self.domain_id & 0xf_ffff);
        let d2 = ((self.addr >> 12) as u32) & 0xf_ffff;
        let d3 = (self.addr >> 32) as u32;
        [d0, d1, d2, d3]
    }
}

/// One event log entry (parsed/typed view).
#[derive(Copy, Clone, Debug, PartialEq, Eq)]
pub enum Event {
    /// IO_PAGE_FAULT.
    PageFault(PageFaultEvent),
    /// Any other event: keep the raw words and code.
    Raw {
        /// Event code.
        code: EventCode,
        /// Raw dwords.
        words: [u32; 4],
    },
}

impl Event {
    /// Event code.
    #[verifier::allow_in_spec]
    pub fn code(&self) -> EventCode
        returns
            match self {
                Event::PageFault(_) => EventCode(EventCode::IO_PAGE_FAULT),
                Event::Raw { code, .. } => *code,
            },
    {
        match self {
            Event::PageFault(_) => EventCode(EventCode::IO_PAGE_FAULT),
            Event::Raw { code, .. } => *code,
        }
    }

    /// Encode as four dwords.
    pub fn words(&self) -> (r: [u32; 4])
        ensures
            match self {
                Event::PageFault(f) => {
                    &&& r[0] == page_fault_dword0(*f)
                    &&& r[1] == ((EventCode::IO_PAGE_FAULT as u32) << 28) | (f.domain_id & 0xf_ffff)
                    &&& r[2] == ((f.addr >> 12) as u32) & 0xf_ffff
                    &&& r[3] == (f.addr >> 32) as u32
                },
                Event::Raw { words, .. } => r == *words,
            },
    {
        match self {
            Event::PageFault(f) => f.words(),
            Event::Raw { words, .. } => *words,
        }
    }

    /// Decode from raw dwords; codes other than IO_PAGE_FAULT yield
    /// [`Event::Raw`] with the code and the words unchanged.
    #[verifier::allow_in_spec]
    pub fn from_words(words: [u32; 4]) -> Event
        returns
            if ((words[1] >> 28) as u8) == EventCode::IO_PAGE_FAULT {
                Event::PageFault(page_fault_of_words(words))
            } else {
                Event::Raw { code: EventCode::from_dword1(words[1]), words }
            },
    {
        let code = EventCode::from_dword1(words[1]);
        if code.0 == EventCode::IO_PAGE_FAULT {
            let f = PageFaultEvent {
                device_id: (words[0] & 0xffff) as u16,
                domain_id: words[1] & 0xf_ffff,
                addr: ((words[3] as u64) << 32) | (((words[2] & 0xf_ffff) as u64) << 12),
                guest_nested: words[0] & (1u32 << 16) != 0,
                nx: words[0] & (1u32 << 17) != 0,
                rz: words[0] & (1u32 << 18) != 0,
                translation: words[0] & (1u32 << 19) != 0,
                reserved: words[0] & (1u32 << 20) != 0,
                permission: words[0] & (1u32 << 21) != 0,
                write: words[0] & (1u32 << 22) != 0,
                interrupt: words[0] & (1u32 << 23) != 0,
            };
            Event::PageFault(f)
        } else {
            Event::Raw { code, words }
        }
    }
}

/// How the encoding of a page fault decodes, field by field.
proof fn lemma_page_fault_bits(
    device_id: u16,
    domain_id: u32,
    addr: u64,
    gn: bool,
    nx: bool,
    rz: bool,
    tr: bool,
    rs: bool,
    pr: bool,
    rw: bool,
    intr: bool,
)
    by (bit_vector)
    ensures
        ({
            let d0 = (device_id as u32) | (bit32_of(gn) << 16) | (bit32_of(nx) << 17) | (bit32_of(
                rz,
            ) << 18) | (bit32_of(tr) << 19) | (bit32_of(rs) << 20) | (bit32_of(pr) << 21) | (
            bit32_of(rw) << 22) | (bit32_of(intr) << 23);
            &&& (d0 & 0xffff) as u16 == device_id
            &&& (d0 & (1u32 << 16) != 0) == gn
            &&& (d0 & (1u32 << 17) != 0) == nx
            &&& (d0 & (1u32 << 18) != 0) == rz
            &&& (d0 & (1u32 << 19) != 0) == tr
            &&& (d0 & (1u32 << 20) != 0) == rs
            &&& (d0 & (1u32 << 21) != 0) == pr
            &&& (d0 & (1u32 << 22) != 0) == rw
            &&& (d0 & (1u32 << 23) != 0) == intr
        }),
        ((((2u32 << 28) | (domain_id & 0xf_ffff)) >> 28) as u8) == 2,
        ((2u32 << 28) | (domain_id & 0xf_ffff)) & 0xf_ffff == domain_id & 0xf_ffff,
        ((((addr >> 32) as u32) as u64) << 32) | ((((((addr >> 12) as u32) & 0xf_ffff) & 0xf_ffff)
            as u64) << 12) == addr & 0xffff_ffff_ffff_f000,
{
}

/// Where each flag of a page fault sits in dword 0 of its encoding, and
/// the code in dword 1.
proof fn lemma_page_fault_flag_bits(f: PageFaultEvent)
    ensures
        page_fault_dword0(f) & 0xffff == f.device_id as u32,
        (page_fault_dword0(f) & 0x1_0000 != 0) == f.guest_nested,
        (page_fault_dword0(f) & 0x2_0000 != 0) == f.nx,
        (page_fault_dword0(f) & 0x4_0000 != 0) == f.rz,
        (page_fault_dword0(f) & 0x8_0000 != 0) == f.translation,
        (page_fault_dword0(f) & 0x10_0000 != 0) == f.reserved,
        (page_fault_dword0(f) & 0x20_0000 != 0) == f.permission,
        (page_fault_dword0(f) & 0x40_0000 != 0) == f.write,
        (page_fault_dword0(f) & 0x80_0000 != 0) == f.interrupt,
        (((EventCode::IO_PAGE_FAULT as u32) << 28) | (f.domain_id & 0xf_ffff)) >> 28 == 2,
{
    let d = f.device_id;
    let (gn, nx, rz, tr, rs, pr, rw, intr) = (
        f.guest_nested,
        f.nx,
        f.rz,
        f.translation,
        f.reserved,
        f.permission,
        f.write,
        f.interrupt,
    );
    let dom = f.domain_id;
    assert({
        let d0 = (d as u32) | (bit32_of(gn) << 16) | (bit32_of(nx) << 17) | (bit32_of(rz) << 18) | (
        bit32_of(tr) << 19) | (bit32_of(rs) << 20) | (bit32_of(pr) << 21) | (bit32_of(rw) << 22)
            | (bit32_of(intr) << 23);
        &&& d0 & 0xffff == d as u32
        &&& (d0 & 0x1_0000 != 0) == gn
        &&& (d0 & 0x2_0000 != 0) == nx
        &&& (d0 & 0x4_0000 != 0) == rz
        &&& (d0 & 0x8_0000 != 0) == tr
        &&& (d0 & 0x10_0000 != 0) == rs
        &&& (d0 & 0x20_0000 != 0) == pr
        &&& (d0 & 0x40_0000 != 0) == rw
        &&& (d0 & 0x80_0000 != 0) == intr
    }) by (bit_vector);
    assert(((2u32 << 28) | (dom & 0xf_ffff)) >> 28 == 2) by (bit_vector);
}

/// Law: an entry whose dword 1 carries the IO_PAGE_FAULT code (2) decodes
/// as a page fault whose every field is read from its fixed place: the
/// device id from dword 0 bits 15:0, the flags from dword 0 bits 16..=23
/// (GN, NX, RZ, TR, RS, PR, RW, I), the domain from dword 1 bits 19:0 and
/// the address from dwords 2 (bits 19:0 as address bits 31:12) and 3.
pub proof fn lemma_page_fault_decode_fields(words: [u32; 4])
    requires
        words[1] >> 28 == 2,
    ensures
        Event::from_words(words) matches Event::PageFault(f) && {
            &&& f.device_id as u32 == words[0] & 0xffff
            &&& f.guest_nested == (words[0] & 0x1_0000 != 0)
            &&& f.nx == (words[0] & 0x2_0000 != 0)
            &&& f.rz == (words[0] & 0x4_0000 != 0)
            &&& f.translation == (words[0] & 0x8_0000 != 0)
            &&& f.reserved == (words[0] & 0x10_0000 != 0)
            &&& f.permission == (words[0] & 0x20_0000 != 0)
            &&& f.write == (words[0] & 0x40_0000 != 0)
            &&& f.interrupt == (words[0] & 0x80_0000 != 0)
            &&& f.domain_id == words[1] & 0xf_ffff
            &&& f.addr == ((words[3] as u64) << 32) | (((words[2] & 0xf_ffff) as u64) << 12)
        },
{
    let w0 = words[0];
    let w1 = words[1];
    assert(((w1 >> 28) as u8) == 2u8) by (bit_vector)
        requires
            w1 >> 28 == 2,
    ;
    assert({
        &&& (w0 & 0xffff) as u16 as u32 == w0 & 0xffff
        &&& (w0 & (1u32 << 16) != 0) == (w0 & 0x1_0000 != 0)
        &&& (w0 & (1u32 << 17) != 0) == (w0 & 0x2_0000 != 0)
        &&& (w0 & (1u32 << 18) != 0) == (w0 & 0x4_0000 != 0)
        &&& (w0 & (1u32 << 19) != 0) == (w0 & 0x8_0000 != 0)
        &&& (w0 & (1u32 << 20) != 0) == (w0 & 0x10_0000 != 0)
        &&& (w0 & (1u32 << 21) != 0) == (w0 & 0x20_0000 != 0)
        &&& (w0 & (1u32 << 22) != 0) == (w0 & 0x40_0000 != 0)
        &&& (w0 & (1u32 << 23) != 0) == (w0 & 0x80_0000 != 0)
    }) by (bit_vector);
}

/// Law: decoding the encoding of a page fault gives the fault back, with
/// the domain id cut to its 20 bits and the address to bits 63:12.
pub proof fn lemma_page_fault_roundtrip(f: PageFaultEvent, w: [u32; 4])
    requires
        w[0] == page_fault_dword0(f),
        w[1] == ((EventCode::IO_PAGE_FAULT as u32) << 28) | (f.domain_id & 0xf_ffff),
        w[2] == ((f.addr >> 12) as u32) & 0xf_ffff,
        w[3] == (f.addr >> 32) as u32,
    ensures
        Event::from_words(w) == Event::PageFault(
            PageFaultEvent {
                domain_id: f.domain_id & 0xf_ffff,
                addr: f.addr & 0xffff_ffff_ffff_f000,
                ..f
            },
        ),
{
    lemma_page_fault_bits(
        f.device_id,
        f.domain_id,
        f.addr,
        f.guest_nested,
        f.nx,
        f.rz,
        f.translation,
        f.reserved,
        f.permission,
        f.write,
        f.interrupt,
    );
}

/// Law: an event that is not a page fault survives decoding of its own
/// words unchanged, as long as its code is the one its dword 1 carries.
pub proof fn lemma_raw_event_roundtrip(code: EventCode, words: [u32; 4])
    requires
        EventCode::from_dword1(words[1]) == code,
        code.0 != EventCode::IO_PAGE_FAULT,
    ensures
        Event::from_words(words) == (Event::Raw { code, words }),
{
}

} // verus!
