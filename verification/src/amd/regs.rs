//! IOMMU MMIO register map.
//!
//! | Offset  | Register                          |
//! |---------|-----------------------------------|
//! | 0000h   | Device Table Base Address (DTBA)  |
//! | 0008h   | Command Buffer Base (CBBA)        |
//! | 0010h   | Event Log Base (ELBA)             |
//! | 0018h   | Control                           |
//! | 0020h   | Exclusion Base / Completion Store |
//! | 0028h   | Exclusion Limit                   |
//! | 0030h   | Extended Feature Report           |
//! | 0038h   | PPR Log Base (PLBA)               |
//! | 00E0h   | Guest Access Log Base             |
//! | 2000h+  | Head/tail pointers, Status        |
//!
//! Buffer-base registers share one encoding: bits 51:12 hold the 4 KiB
//! aligned base, bits 63:56 hold the length order `N` (`2^(N+4)` bytes for
//! command/event/PPR logs, `2^(N+1)` entries for the device table).
use vstd::prelude::*;

use crate::amd::bits::extract_bits;
use crate::bitfield::{
    field,
    lemma_field_roundtrip,
    lemma_flag_mask,
    lemma_flag_with_flag,
    lemma_low_mask_mod,
    lemma_low_mask_values,
    put_field,
    put_flag,
    with_field,
    with_flag,
};

verus! {

/// Device Table Base Address register.
pub const DEV_TABLE_BASE: u64 = 0x0000;
/// Command Buffer Base Address register.
pub const CMD_BUF_BASE: u64 = 0x0008;
/// Event Log Base Address register.
pub const EVT_BUF_BASE: u64 = 0x0010;
/// Control register.
pub const CONTROL: u64 = 0x0018;
/// Exclusion base / completion store base register.
pub const EXCL_BASE: u64 = 0x0020;
/// Exclusion range limit register.
pub const EXCL_LIMIT: u64 = 0x0028;
/// Extended feature report register.
pub const EXT_FEATURES: u64 = 0x0030;
/// PPR Log Base Address register.
pub const PPR_LOG_BASE: u64 = 0x0038;
/// Guest Access Log Base register.
pub const GA_LOG_BASE: u64 = 0x00E0;
/// Command buffer head pointer.
pub const CMD_HEAD: u64 = 0x2000;
/// Command buffer tail pointer.
pub const CMD_TAIL: u64 = 0x2008;
/// Event log head pointer.
pub const EVT_HEAD: u64 = 0x2010;
/// Event log tail pointer.
pub const EVT_TAIL: u64 = 0x2018;
/// Status register.
pub const STATUS: u64 = 0x2020;
/// PPR log head pointer.
pub const PPR_HEAD: u64 = 0x2030;
/// PPR log tail pointer.
pub const PPR_TAIL: u64 = 0x2038;
/// Guest access log head pointer.
pub const GA_HEAD: u64 = 0x2040;
/// Guest access log tail pointer.
pub const GA_TAIL: u64 = 0x2048;

/// Byte offset of entry `n` of a buffer of 16-byte entries.
pub fn entry_offset(n: u16) -> (r: u64)
    ensures
        r == n as u64 * 16,
{
    (n as u64) * 16
}

/// Mask of the 4 KiB aligned buffer base (bits 51:12).
pub open spec fn buffer_base_mask() -> u64 {
    0x000f_ffff_ffff_f000
}

/// Shared encoding of the device-table / command-buffer / event-log /
/// PPR-log base registers.
#[derive(Copy, Clone, Debug, Default, PartialEq, Eq, Structural)]
pub struct BufferBase(pub u64);

/// Facts about the base register encoding.
proof fn lemma_buffer_base_bits(base: u64, order: u8)
    by (bit_vector)
    ensures
        ((base & 0x000f_ffff_ffff_f000) | ((order as u64) << 56)) & 0x000f_ffff_ffff_f000 == base
            & 0x000f_ffff_ffff_f000,
        ((((base & 0x000f_ffff_ffff_f000) | ((order as u64) << 56)) >> 56) & 0xff) as u8 == order,
{
}

impl BufferBase {
    /// Build a base register from a 4 KiB aligned base and a length order
    /// `N` (stored in bits 63:56). Both read back.
    pub fn new(base: u64, length_order: u8) -> (r: Self)
        ensures
            r == BufferBase((base & buffer_base_mask()) | ((length_order as u64) << 56)),
            r.base() == base & buffer_base_mask(),
            r.length_order() == length_order,
    {
        proof {
            lemma_buffer_base_bits(base, length_order);
            lemma_low_mask_values();
        }
        BufferBase((base & 0x000f_ffff_ffff_f000) | ((length_order as u64) << 56))
    }

    /// Base address (bits 51:12, in place).
    #[verifier::allow_in_spec]
    pub fn base(&self) -> u64
        returns
            self.0 & buffer_base_mask(),
    {
        self.0 & 0x000f_ffff_ffff_f000
    }

    /// Length order (bits 63:56).
    #[verifier::allow_in_spec]
    pub fn length_order(&self) -> u8
        returns
            field(self.0, 56, 8) as u8,
    {
        extract_bits(self.0, 63, 56) as u8
    }

    /// Buffer size in bytes for command/event/PPR logs: `2^(N+4)`.
    pub fn size_bytes(&self) -> (r: u64)
        requires
            self.length_order() + 4 < 64,
        ensures
            r == 1u64 << (self.length_order() + 4) as u64,
    {
        1u64 << (self.length_order() as u32 + 4)
    }

    /// Entry count for a device table: `2^(N+1)`.
    pub fn entry_count(&self) -> (r: u64)
        requires
            self.length_order() + 1 < 64,
        ensures
            r == 1u64 << (self.length_order() + 1) as u64,
    {
        1u64 << (self.length_order() as u32 + 1)
    }

    /// Raw register value.
    #[verifier::allow_in_spec]
    pub fn bits(self) -> u64
        returns
            self.0,
    {
        self.0
    }
}

/// Command/Event/PPR Log Base register (same layout as [`BufferBase`]).
pub type CommandBufferBase = BufferBase;

/// Device Table Base register (same layout as [`BufferBase`]).
pub type DeviceTableBase = BufferBase;

/// IOMMU Control Register. Several fields are multi-bit and exposed as
/// helpers; the single-bit flags are the associated constants.
#[derive(Copy, Clone, Debug, Default, PartialEq, Eq, Structural)]
pub struct Control(pub u64);

impl Control {
    /// IOMMU enable (bit 0).
    pub const IOMMU_EN: u64 = 1 << 0;
    /// HyperTransport tunnel translation enable (bit 1).
    pub const HT_TUN_EN: u64 = 1 << 1;
    /// Event log enable (bit 2).
    pub const EVT_LOG_EN: u64 = 1 << 2;
    /// Event log interrupt enable (bit 3).
    pub const EVT_INT_EN: u64 = 1 << 3;
    /// Completion wait interrupt enable (bit 4).
    pub const COMWAIT_EN: u64 = 1 << 4;
    /// PassPW enable (bit 8).
    pub const PASSPW_EN: u64 = 1 << 8;
    /// ResPassPW enable (bit 9).
    pub const RESPASSPW_EN: u64 = 1 << 9;
    /// Coherent enable (bit 10).
    pub const COHERENT_EN: u64 = 1 << 10;
    /// Isochronous enable (bit 11).
    pub const ISOC_EN: u64 = 1 << 11;
    /// Command buffer enable (bit 12).
    pub const CMD_BUF_EN: u64 = 1 << 12;
    /// PPR log enable (bit 13).
    pub const PPR_LOG_EN: u64 = 1 << 13;
    /// PPR interrupt enable (bit 14).
    pub const PPR_INT_EN: u64 = 1 << 14;
    /// PPR enable (bit 15).
    pub const PPR_EN: u64 = 1 << 15;
    /// Guest translation enable (bit 16).
    pub const GT_EN: u64 = 1 << 16;
    /// Guest access (GA) enable (bit 17).
    pub const GA_EN: u64 = 1 << 17;
    /// Guest MSI address mode (GAM, bit 25).
    pub const GAM_EN: u64 = 1 << 25;
    /// Guest access log enable (bit 28).
    pub const GA_LOG_EN: u64 = 1 << 28;
    /// Guest access interrupt enable (bit 29).
    pub const GA_INT_EN: u64 = 1 << 29;
    /// Enhanced PPR handling enable (bit 45).
    pub const EPH_EN: u64 = 1 << 45;
    /// XT (x2APIC) interrupt enable (bit 50).
    pub const XT_EN: u64 = 1 << 50;
    /// Interrupt cap-XT enable (bit 51).
    pub const INTCAPXT_EN: u64 = 1 << 51;
    /// Guest CR3 table TRP mode (bit 58).
    pub const GCR3_TRP_MODE: u64 = 1 << 58;
    /// IR table cache disable (bit 59).
    pub const IR_CACHE_DIS: u64 = 1 << 59;
    /// SNP AVIC enable (bit 61).
    pub const SNP_AVIC_EN: u64 = 1 << 61;

    /// Wrap a raw register value.
    pub fn new(raw: u64) -> (r: Self)
        ensures
            r == Control(raw),
    {
        Control(raw)
    }

    /// Raw register value.
    #[verifier::allow_in_spec]
    pub fn bits(&self) -> u64
        returns
            self.0,
    {
        self.0
    }

    /// `true` when every bit of `mask` is set.
    #[verifier::allow_in_spec]
    pub fn contains(&self, mask: u64) -> bool
        returns
            self.0 & mask == mask,
    {
        self.0 & mask == mask
    }

    /// Set the IOMMU enable bit.
    pub fn with_iommu_en(self, en: bool) -> (r: Self)
        ensures
            r == Control(with_flag(self.0, 0, en)),
            r.contains(Control::IOMMU_EN) == en,
    {
        proof {
            lemma_flag_with_flag(self.0, 0, en, 0);
            lemma_flag_mask(with_flag(self.0, 0, en), 0);
        }
        Control(put_flag(self.0, 0, en))
    }

    /// Set the command buffer enable bit.
    pub fn with_cmd_buf_en(self, en: bool) -> (r: Self)
        ensures
            r == Control(with_flag(self.0, 12, en)),
            r.contains(Control::CMD_BUF_EN) == en,
    {
        proof {
            lemma_flag_with_flag(self.0, 12, en, 12);
            lemma_flag_mask(with_flag(self.0, 12, en), 12);
        }
        Control(put_flag(self.0, 12, en))
    }

    /// Set the event log enable bit.
    pub fn with_evt_log_en(self, en: bool) -> (r: Self)
        ensures
            r == Control(with_flag(self.0, 2, en)),
            r.contains(Control::EVT_LOG_EN) == en,
    {
        proof {
            lemma_flag_with_flag(self.0, 2, en, 2);
            lemma_flag_mask(with_flag(self.0, 2, en), 2);
        }
        Control(put_flag(self.0, 2, en))
    }

    /// Set the PPR enable bit.
    pub fn with_ppr_en(self, en: bool) -> (r: Self)
        ensures
            r == Control(with_flag(self.0, 15, en)),
            r.contains(Control::PPR_EN) == en,
    {
        proof {
            lemma_flag_with_flag(self.0, 15, en, 15);
            lemma_flag_mask(with_flag(self.0, 15, en), 15);
        }
        Control(put_flag(self.0, 15, en))
    }

    /// Set the guest translation enable bit.
    pub fn with_gt_en(self, en: bool) -> (r: Self)
        ensures
            r == Control(with_flag(self.0, 16, en)),
            r.contains(Control::GT_EN) == en,
    {
        proof {
            lemma_flag_with_flag(self.0, 16, en, 16);
            lemma_flag_mask(with_flag(self.0, 16, en), 16);
        }
        Control(put_flag(self.0, 16, en))
    }

    /// Invalidation timeout (bits 7:5).
    #[verifier::allow_in_spec]
    pub fn invalidation_timeout(&self) -> u8
        returns
            field(self.0, 5, 3) as u8,
    {
        extract_bits(self.0, 7, 5) as u8
    }

    /// Set the invalidation timeout (its low three bits).
    pub fn with_invalidation_timeout(self, to: u8) -> (r: Self)
        ensures
            r == Control(with_field(self.0, 5, 3, to as u64)),
            r.invalidation_timeout() == to % 8,
    {
        proof {
            lemma_low_mask_values();
            lemma_low_mask_mod(to as u64);
            lemma_field_roundtrip(self.0, 5, 3, to as u64);
        }
        Control(put_field(self.0, 5, 3, to as u64))
    }
}

/// IOMMU Status Register.
#[derive(Copy, Clone, Debug, Default, PartialEq, Eq, Structural)]
pub struct Status(pub u64);

impl Status {
    /// Event log overflow (bit 0).
    pub const EVT_OVERFLOW: u64 = 1 << 0;
    /// Event log interrupt pending (bit 1).
    pub const EVT_INT: u64 = 1 << 1;
    /// Completion wait interrupt pending (bit 2).
    pub const COM_WAIT_INT: u64 = 1 << 2;
    /// Event log running (bit 3).
    pub const EVT_RUN: u64 = 1 << 3;
    /// PPR log overflow (bit 5).
    pub const PPR_OVERFLOW: u64 = 1 << 5;
    /// PPR interrupt pending (bit 6).
    pub const PPR_INT: u64 = 1 << 6;
    /// PPR log running (bit 7).
    pub const PPR_RUN: u64 = 1 << 7;
    /// Guest access log running (bit 8).
    pub const GA_LOG_RUN: u64 = 1 << 8;
    /// Guest access log overflow (bit 9).
    pub const GA_LOG_OVERFLOW: u64 = 1 << 9;
    /// Guest access interrupt pending (bit 10).
    pub const GA_LOG_INT: u64 = 1 << 10;
    /// Command buffer running (CmdBufRun, bit 12).
    pub const CMD_BUF_RUN: u64 = 1 << 12;

    /// Wrap a raw register value.
    pub fn new(raw: u64) -> (r: Self)
        ensures
            r == Status(raw),
    {
        Status(raw)
    }

    /// Raw register value.
    #[verifier::allow_in_spec]
    pub fn bits(&self) -> u64
        returns
            self.0,
    {
        self.0
    }

    /// `true` when every bit of `mask` is set.
    #[verifier::allow_in_spec]
    pub fn contains(&self, mask: u64) -> bool
        returns
            self.0 & mask == mask,
    {
        self.0 & mask == mask
    }
}

} // verus!
