//! Command buffer entries.
//!
//! Each command is 128 bits (four dwords): the opcode sits at bits `31:28`
//! of dword 1, the operands fill the rest of dwords 0..3.
//!
//! | Opcode | Command                    |
//! |--------|----------------------------|
//! | 01h    | COMPLETION_WAIT            |
//! | 02h    | INVALIDATE_DEVTAB_ENTRY    |
//! | 03h    | INVALIDATE_IOMMU_PAGES     |
//! | 04h    | INVALIDATE_IOTLB_PAGES     |
//! | 05h    | INVALIDATE_INTERRUPT_TABLE |
//! | 06h    | PREFETCH_IOMMU_PAGES       |
//! | 07h    | COMPLETE_PPR_REQUEST       |
//! | 08h    | INVALIDATE_IOMMU_ALL       |
use vstd::prelude::*;

use crate::bitfield::{bit32_of, bool_u32};

verus! {

/// Opcode values.
#[derive(Copy, Clone, Debug, PartialEq, Eq, Structural)]
pub struct Opcode(pub u8);

impl Opcode {
    /// COMPLETION_WAIT.
    pub const COMPLETION_WAIT: u8 = 0x01;
    /// INVALIDATE_DEVTAB_ENTRY.
    pub const INVALIDATE_DEVTAB_ENTRY: u8 = 0x02;
    /// INVALIDATE_IOMMU_PAGES.
    pub const INVALIDATE_IOMMU_PAGES: u8 = 0x03;
    /// INVALIDATE_IOTLB_PAGES.
    pub const INVALIDATE_IOTLB_PAGES: u8 = 0x04;
    /// INVALIDATE_INTERRUPT_TABLE.
    pub const INVALIDATE_INTERRUPT_TABLE: u8 = 0x05;
    /// PREFETCH_IOMMU_PAGES.
    pub const PREFETCH_IOMMU_PAGES: u8 = 0x06;
    /// COMPLETE_PPR_REQUEST.
    pub const COMPLETE_PPR_REQUEST: u8 = 0x07;
    /// INVALIDATE_IOMMU_ALL.
    pub const INVALIDATE_IOMMU_ALL: u8 = 0x08;

    /// Extract the opcode from dword 1 (bits 31:28).
    #[verifier::allow_in_spec]
    pub fn from_dword1(d: u32) -> Opcode
        returns
            Opcode((d >> 28) as u8),
    {
        Opcode((d >> 28) as u8)
    }
}

/// The opcode nibble placed at bits 31:28 of dword 1.
pub open spec fn opcode_bits(op: u8) -> u32 {
    (op as u32) << 28
}

/// COMPLETION_WAIT.
///
/// `s` (bit 0): write `store_data` to `store_addr`;
/// `i` (bit 1): set `ComWaitInt` in the status register;
/// `f` (bit 2): strict in-order queue flush.
#[derive(Copy, Clone, Debug, Default, PartialEq, Eq, Structural)]
pub struct CompletionWait {
    /// Store completion status to memory.
    pub store: bool,
    /// Raise the completion-wait interrupt.
    pub interrupt: bool,
    /// Flush: strictly ordered execution.
    pub flush: bool,
    /// 8-byte aligned store address (bits 51:3).
    pub store_addr: u64,
    /// 64-bit value stored on completion.
    pub store_data: u64,
}

impl CompletionWait {
    /// A completion wait with no store, interrupt or flush.
    pub fn new() -> (r: Self)
        ensures
            r == (CompletionWait {
                store: false,
                interrupt: false,
                flush: false,
                store_addr: 0,
                store_data: 0,
            }),
    {
        CompletionWait { store: false, interrupt: false, flush: false, store_addr: 0, store_data: 0 }
    }

    /// Configure a semaphore store of `data` at the 8-byte aligned `addr`.
    pub fn with_store(self, addr: u64, data: u64) -> (r: Self)
        ensures
            r == (CompletionWait {
                store: true,
                store_addr: addr & 0xffff_ffff_ffff_fff8,
                store_data: data,
                ..self
            }),
    {
        let mut c = self;
        c.store = true;
        c.store_addr = addr & 0xffff_ffff_ffff_fff8;
        c.store_data = data;
        c
    }

    /// Configure a strict fence.
    pub fn with_flush(self) -> (r: Self)
        ensures
            r == (CompletionWait { flush: true, ..self }),
    {
        let mut c = self;
        c.flush = true;
        c
    }

    /// Configure the completion interrupt.
    pub fn with_interrupt(self) -> (r: Self)
        ensures
            r == (CompletionWait { interrupt: true, ..self }),
    {
        let mut c = self;
        c.interrupt = true;
        c
    }

    /// Encode into the four dwords of the command entry.
    pub fn encode(&self) -> (r: [u32; 4])
        ensures
            r[0] == bit32_of(self.store) | (bit32_of(self.interrupt) << 1) | (bit32_of(self.flush)
                << 2) | ((((self.store_addr >> 3) as u32) & 0x1fff_ffff) << 3),
            r[1] == opcode_bits(Opcode::COMPLETION_WAIT) | (((self.store_addr >> 32) as u32)
                & 0xf_ffff),
            r[2] == self.store_data as u32,
            r[3] == (self.store_data >> 32) as u32,
    {
        let d0 = bool_u32(self.store) | (bool_u32(self.interrupt) << 1) | (bool_u32(self.flush)
            << 2) | ((((self.store_addr >> 3) as u32) & 0x1fff_ffff) << 3);
        let d1 = ((Opcode::COMPLETION_WAIT as u32) << 28) | (((self.store_addr >> 32) as u32)
            & 0xf_ffff);
        [d0, d1, self.store_data as u32, (self.store_data >> 32) as u32]
    }
}

/// INVALIDATE_DEVTAB_ENTRY.
#[derive(Copy, Clone, Debug, Default, PartialEq, Eq, Structural)]
pub struct InvalidateDevTabEntry {
    /// DeviceID whose cached DTE must be reloaded.
    pub device_id: u16,
}

impl InvalidateDevTabEntry {
    /// Encode into (dword0, dword1).
    pub fn encode(&self) -> (r: (u32, u32))
        ensures
            r == (self.device_id as u32, opcode_bits(Opcode::INVALIDATE_DEVTAB_ENTRY)),
    {
        (self.device_id as u32, (Opcode::INVALIDATE_DEVTAB_ENTRY as u32) << 28)
    }
}

/// INVALIDATE_IOMMU_PAGES.
///
/// * dword 0: `PASID[19:0]` (ignored when GN = 0).
/// * dword 1: opcode (31:28), `DomainID` (15:0).
/// * dword 2: `Address[31:12]` (31:12), `GN` (2), `PDE` (1), `S` (0).
/// * dword 3: `Address[63:32]`.
#[derive(Copy, Clone, Debug, Default, PartialEq, Eq, Structural)]
pub struct InvalidateIommuPages {
    /// Domain identifier.
    pub domain_id: u16,
    /// PASID (only meaningful with `guest_nested`).
    pub pasid: u32,
    /// Page address to invalidate (bits 63:12).
    pub addr: u64,
    /// `S`: super-page invalidate.
    pub size: bool,
    /// `PDE`: address is a page-directory entry.
    pub pde: bool,
    /// `GN`: address is a GVA (guest nested).
    pub guest_nested: bool,
}

impl InvalidateIommuPages {
    /// Encode into the four dwords of the command entry.
    pub fn encode(&self) -> (r: [u32; 4])
        ensures
            r[0] == self.pasid & 0xf_ffff,
            r[1] == opcode_bits(Opcode::INVALIDATE_IOMMU_PAGES) | self.domain_id as u32,
            r[2] == ((((self.addr >> 12) as u32) & 0xf_ffff) << 12) | (bit32_of(self.guest_nested)
                << 2) | (bit32_of(self.pde) << 1) | bit32_of(self.size),
            r[3] == (self.addr >> 32) as u32,
    {
        let d0 = self.pasid & 0xf_ffff;
        let d1 = ((Opcode::INVALIDATE_IOMMU_PAGES as u32) << 28) | self.domain_id as u32;
        let d2 = ((((self.addr >> 12) as u32) & 0xf_ffff) << 12) | (bool_u32(self.guest_nested)
            << 2) | (bool_u32(self.pde) << 1) | bool_u32(self.size);
        let d3 = (self.addr >> 32) as u32;
        [d0, d1, d2, d3]
    }
}

/// INVALIDATE_IOTLB_PAGES.
///
/// * dword 0: `Maxpend[7:0]` (31:24), `PASID[15:8]` (23:16),
///   `DeviceID` (15:0).
/// * dword 1: opcode (31:28), `PASID[19:16]` (27:24), `PASID[7:0]`
///   (23:16), `QueueID` (15:0).
/// * dword 2: `Address[31:12]` (31:12), `Type` (5:4), `GN` (2), `S` (0).
/// * dword 3: `Address[63:32]`.
#[derive(Copy, Clone, Debug, Default, PartialEq, Eq, Structural)]
pub struct InvalidateIotlbPages {
    /// Device whose ATC is invalidated.
    pub device_id: u16,
    /// Queue id shared by virtual functions.
    pub queue_id: u16,
    /// PASID (only meaningful with `guest_nested`).
    pub pasid: u32,
    /// Max in-flight invalidations for this queue.
    pub max_pend: u8,
    /// Page address to invalidate.
    pub addr: u64,
    /// Invalidation type (00b standard; 01b/10b flush variants).
    pub inv_type: u8,
    /// `S`: super-page invalidate.
    pub size: bool,
    /// `GN`: address is a GVA.
    pub guest_nested: bool,
}

impl InvalidateIotlbPages {
    /// Encode into the four dwords of the command entry.
    pub fn encode(&self) -> (r: [u32; 4])
        ensures
            r[0] == (self.device_id as u32) | (((self.pasid >> 8) & 0xff) << 16) | ((
            self.max_pend as u32) << 24),
            r[1] == opcode_bits(Opcode::INVALIDATE_IOTLB_PAGES) | (((self.pasid >> 16) & 0xf)
                << 24) | ((self.pasid & 0xff) << 16) | self.queue_id as u32,
            r[2] == ((((self.addr >> 12) as u32) & 0xf_ffff) << 12) | (((self.inv_type % 4) as u32)
                << 4) | (bit32_of(self.guest_nested) << 2) | bit32_of(self.size),
            r[3] == (self.addr >> 32) as u32,
    {
        let d0 = (self.device_id as u32) | (((self.pasid >> 8) & 0xff) << 16) | ((
        self.max_pend as u32) << 24);
        let d1 = ((Opcode::INVALIDATE_IOTLB_PAGES as u32) << 28) | (((self.pasid >> 16) & 0xf)
            << 24) | ((self.pasid & 0xff) << 16) | self.queue_id as u32;
        let d2 = ((((self.addr >> 12) as u32) & 0xf_ffff) << 12) | (((self.inv_type % 4) as u32)
            << 4) | (bool_u32(self.guest_nested) << 2) | bool_u32(self.size);
        let d3 = (self.addr >> 32) as u32;
        [d0, d1, d2, d3]
    }
}

/// COMPLETE_PPR_REQUEST.
#[derive(Copy, Clone, Debug, Default, PartialEq, Eq, Structural)]
pub struct CompletePprRequest {
    /// DeviceID of the requesting device.
    pub device_id: u16,
    /// PPR tag from the log entry.
    pub ppr_tag: u16,
    /// PASID of the request.
    pub pasid: u16,
}

impl CompletePprRequest {
    /// Encode into (dword0, dword1).
    pub fn encode(&self) -> (r: (u32, u32))
        ensures
            r == ((self.device_id as u32) | ((self.ppr_tag as u32) << 16), opcode_bits(
                Opcode::COMPLETE_PPR_REQUEST,
            ) | (self.pasid as u32)),
    {
        let d0 = (self.device_id as u32) | ((self.ppr_tag as u32) << 16);
        let d1 = ((Opcode::COMPLETE_PPR_REQUEST as u32) << 28) | (self.pasid as u32);
        (d0, d1)
    }
}

/// One command buffer entry.
#[derive(Copy, Clone, Debug, PartialEq, Eq, Structural)]
pub enum Command {
    /// Serialize with command processing.
    CompletionWait(CompletionWait),
    /// Reload a cached device-table entry.
    InvalidateDevTabEntry(InvalidateDevTabEntry),
    /// Invalidate IOMMU page-table cache pages.
    InvalidateIommuPages(InvalidateIommuPages),
    /// Invalidate IOTLB (device IOTLB) pages.
    InvalidateIotlbPages(InvalidateIotlbPages),
    /// Invalidate a device's interrupt remapping table.
    InvalidateInterruptTable(InvalidateDevTabEntry),
    /// Complete a peripheral page request.
    CompletePprRequest(CompletePprRequest),
    /// Invalidate all cached translations.
    InvalidateIommuAll,
}

impl Command {
    /// Opcode of the command.
    #[verifier::allow_in_spec]
    pub fn opcode(&self) -> Opcode
        returns
            match self {
                Command::CompletionWait(_) => Opcode(Opcode::COMPLETION_WAIT),
                Command::InvalidateDevTabEntry(_) => Opcode(Opcode::INVALIDATE_DEVTAB_ENTRY),
                Command::InvalidateIommuPages(_) => Opcode(Opcode::INVALIDATE_IOMMU_PAGES),
                Command::InvalidateIotlbPages(_) => Opcode(Opcode::INVALIDATE_IOTLB_PAGES),
                Command::InvalidateInterruptTable(_) => Opcode(Opcode::INVALIDATE_INTERRUPT_TABLE),
                Command::CompletePprRequest(_) => Opcode(Opcode::COMPLETE_PPR_REQUEST),
                Command::InvalidateIommuAll => Opcode(Opcode::INVALIDATE_IOMMU_ALL),
            },
    {
        match self {
            Command::CompletionWait(_) => Opcode(Opcode::COMPLETION_WAIT),
            Command::InvalidateDevTabEntry(_) => Opcode(Opcode::INVALIDATE_DEVTAB_ENTRY),
            Command::InvalidateIommuPages(_) => Opcode(Opcode::INVALIDATE_IOMMU_PAGES),
            Command::InvalidateIotlbPages(_) => Opcode(Opcode::INVALIDATE_IOTLB_PAGES),
            Command::InvalidateInterruptTable(_) => Opcode(Opcode::INVALIDATE_INTERRUPT_TABLE),
            Command::CompletePprRequest(_) => Opcode(Opcode::COMPLETE_PPR_REQUEST),
            Command::InvalidateIommuAll => Opcode(Opcode::INVALIDATE_IOMMU_ALL),
        }
    }

    /// Encode as four 32-bit dwords (`+00`, `+04`, `+08`, `+0C`).
    ///
    /// The two-dword commands fill dwords 2 and 3 with zero;
    /// INVALIDATE_INTERRUPT_TABLE shares the INVALIDATE_DEVTAB_ENTRY operand
    /// layout under its own opcode. The opcode of the command can always be
    /// read back from dword 1.
    pub fn words(&self) -> (r: [u32; 4])
        ensures
            Opcode::from_dword1(r[1]) == self.opcode(),
            match self {
                Command::CompletionWait(c) => {
                    &&& r[0] == bit32_of(c.store) | (bit32_of(c.interrupt) << 1) | (bit32_of(
                        c.flush,
                    ) << 2) | ((((c.store_addr >> 3) as u32) & 0x1fff_ffff) << 3)
                    &&& r[1] == opcode_bits(Opcode::COMPLETION_WAIT) | (((c.store_addr >> 32) as u32)
                        & 0xf_ffff)
                    &&& r[2] == c.store_data as u32
                    &&& r[3] == (c.store_data >> 32) as u32
                },
                Command::InvalidateDevTabEntry(c) => {
                    &&& r[0] == c.device_id as u32
                    &&& r[1] == opcode_bits(Opcode::INVALIDATE_DEVTAB_ENTRY)
                    &&& r[2] == 0
                    &&& r[3] == 0
                },
                Command::InvalidateIommuPages(c) => {
                    &&& r[0] == c.pasid & 0xf_ffff
                    &&& r[1] == opcode_bits(Opcode::INVALIDATE_IOMMU_PAGES) | c.domain_id as u32
                    &&& r[2] == ((((c.addr >> 12) as u32) & 0xf_ffff) << 12) | (bit32_of(
                        c.guest_nested,
                    ) << 2) | (bit32_of(c.pde) << 1) | bit32_of(c.size)
                    &&& r[3] == (c.addr >> 32) as u32
                },
                Command::InvalidateIotlbPages(c) => {
                    &&& r[0] == (c.device_id as u32) | (((c.pasid >> 8) & 0xff) << 16) | ((
                    c.max_pend as u32) << 24)
                    &&& r[1] == opcode_bits(Opcode::INVALIDATE_IOTLB_PAGES) | (((c.pasid >> 16)
                        & 0xf) << 24) | ((c.pasid & 0xff) << 16) | c.queue_id as u32
                    &&& r[2] == ((((c.addr >> 12) as u32) & 0xf_ffff) << 12) | (((c.inv_type % 4)
                        as u32) << 4) | (bit32_of(c.guest_nested) << 2) | bit32_of(c.size)
                    &&& r[3] == (c.addr >> 32) as u32
                },
                Command::InvalidateInterruptTable(c) => {
                    &&& r[0] == c.device_id as u32
                    &&& r[1] == opcode_bits(Opcode::INVALIDATE_INTERRUPT_TABLE)
                    &&& r[2] == 0
                    &&& r[3] == 0
                },
                Command::CompletePprRequest(c) => {
                    &&& r[0] == (c.device_id as u32) | ((c.ppr_tag as u32) << 16)
                    &&& r[1] == opcode_bits(Opcode::COMPLETE_PPR_REQUEST) | (c.pasid as u32)
                    &&& r[2] == 0
                    &&& r[3] == 0
                },
                Command::InvalidateIommuAll => {
                    &&& r[0] == 0
                    &&& r[1] == opcode_bits(Opcode::INVALIDATE_IOMMU_ALL)
                    &&& r[2] == 0
                    &&& r[3] == 0
                },
            },
    {
        let r = match self {
            Command::CompletionWait(c) => c.encode(),
            Command::InvalidateDevTabEntry(c) => {
                let (d0, d1) = c.encode();
                [d0, d1, 0, 0]
            },
            Command::InvalidateIommuPages(c) => c.encode(),
            Command::InvalidateIotlbPages(c) => c.encode(),
            Command::InvalidateInterruptTable(c) => {
                [c.device_id as u32, (Opcode::INVALIDATE_INTERRUPT_TABLE as u32) << 28, 0, 0]
            },
            Command::CompletePprRequest(c) => {
                let (d0, d1) = c.encode();
                [d0, d1, 0, 0]
            },
            Command::InvalidateIommuAll => [0, (Opcode::INVALIDATE_IOMMU_ALL as u32) << 28, 0, 0],
        };
        proof {
            match self {
                Command::CompletionWait(c) => {
                    lemma_opcode_nibble(1, c.store_addr, 0, 0, 0, 0);
                },
                Command::InvalidateIommuPages(c) => {
                    lemma_opcode_nibble(3, 0, c.domain_id, 0, 0, 0);
                },
                Command::InvalidateIotlbPages(c) => {
                    lemma_opcode_nibble(4, 0, 0, c.pasid, c.queue_id, 0);
                },
                Command::CompletePprRequest(c) => {
                    lemma_opcode_nibble(7, 0, 0, 0, 0, c.pasid);
                },
                Command::InvalidateDevTabEntry(_) => {
                    lemma_opcode_nibble(2, 0, 0, 0, 0, 0);
                },
                Command::InvalidateInterruptTable(_) => {
                    lemma_opcode_nibble(5, 0, 0, 0, 0, 0);
                },
                Command::InvalidateIommuAll => {
                    lemma_opcode_nibble(8, 0, 0, 0, 0, 0);
                },
            }
        }
        r
    }
}

/// The operands packed below the opcode in dword 1 never reach bits 31:28.
proof fn lemma_opcode_nibble(op: u32, store_addr: u64, domain_id: u16, pasid: u32, queue_id: u16, ppr_pasid: u16)
    by (bit_vector)
    requires
        op < 16,
    ensures
        ((op << 28) >> 28) as u8 == op,
        (((op << 28) | (((store_addr >> 32) as u32) & 0xf_ffff)) >> 28) as u8 == op,
        (((op << 28) | domain_id as u32) >> 28) as u8 == op,
        (((op << 28) | (((pasid >> 16) & 0xf) << 24) | ((pasid & 0xff) << 16) | queue_id as u32)
            >> 28) as u8 == op,
        (((op << 28) | ppr_pasid as u32) >> 28) as u8 == op,
{
}

} // verus!
