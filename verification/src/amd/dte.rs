//! Device Table Entry (DTE).
//!
//! The Device Table is indexed by DeviceID (16 bits) and each entry is
//! **256 bits** (four little-endian qwords):
//!
//! * `q0` (DTE bits 63:0): `V`, `TV`, paging `Mode` (11:9), `HAD` (8:7),
//!   host page table root pointer (51:12), `PPR` (52), `GIOV` (54), `GV`
//!   (55), `GLX` (57:56), `GCR3[14:12]` (60:58), `IR` (61), `IW` (62).
//! * `q1` (DTE bits 127:64): `SD` (38), `GCR3[30:15]` (31:16),
//!   `GCR3[51:31]` (63:43).
//! * `q2` (DTE bits 191:128): `IV` (0), `IntTabLen` (4:1), interrupt table
//!   root pointer (51:6), `GuestPagingMode` (55:54), `InitPass` (56),
//!   `EIntPass` (57), `NMIPass` (58).
//! * `q3` (DTE bits 255:192): `GDeviceID` (31:16), `GuestID` (47:32).
use vstd::prelude::*;

use crate::amd::bits::extract_bits;
use crate::bitfield::{
    field,
    flag,
    get_flag,
    lemma_field_roundtrip,
    lemma_field_with_field_other,
    lemma_flag_with_flag,
    lemma_low_mask_mod,
    lemma_low_mask_values,
    put_field,
    put_flag,
    with_field,
    with_flag,
};
use crate::bytes::{le_byte, le_image};

verus! {

/// Host page-table paging mode (`Mode`, bits 11:9).
#[derive(Copy, Clone, Debug, Default, PartialEq, Eq, Structural)]
pub enum PagingMode {
    /// Translation disabled for this device (000b).
    #[default]
    Disabled,
    /// Reserved (001b).
    Reserved1,
    /// v1 page tables, 3-level (010b).
    Level1_3,
    /// v1 page tables, 4-level (011b).
    Level1_4,
    /// Reserved (100b).
    Reserved4,
    /// v2 page tables, 4-level AMD64 (101b).
    Level2_4,
    /// v2 page tables, 5-level AMD64 (110b).
    Level2_5,
    /// Reserved (111b).
    Reserved7,
}

impl PagingMode {
    /// Decode from the raw 3-bit field (the low three bits of `v`).
    #[verifier::allow_in_spec]
    pub fn from_bits(v: u8) -> PagingMode
        returns
            match v % 8 {
                0 => PagingMode::Disabled,
                1 => PagingMode::Reserved1,
                2 => PagingMode::Level1_3,
                3 => PagingMode::Level1_4,
                4 => PagingMode::Reserved4,
                5 => PagingMode::Level2_4,
                6 => PagingMode::Level2_5,
                _ => PagingMode::Reserved7,
            },
    {
        match v % 8 {
            0 => PagingMode::Disabled,
            1 => PagingMode::Reserved1,
            2 => PagingMode::Level1_3,
            3 => PagingMode::Level1_4,
            4 => PagingMode::Reserved4,
            5 => PagingMode::Level2_4,
            6 => PagingMode::Level2_5,
            _ => PagingMode::Reserved7,
        }
    }

    /// Raw 3-bit encoding. Decoding it gives the mode back.
    #[verifier::allow_in_spec]
    pub fn bits(self) -> u8
        returns
            match self {
                PagingMode::Disabled => 0u8,
                PagingMode::Reserved1 => 1,
                PagingMode::Level1_3 => 2,
                PagingMode::Level1_4 => 3,
                PagingMode::Reserved4 => 4,
                PagingMode::Level2_4 => 5,
                PagingMode::Level2_5 => 6,
                PagingMode::Reserved7 => 7,
            },
    {
        match self {
            PagingMode::Disabled => 0,
            PagingMode::Reserved1 => 1,
            PagingMode::Level1_3 => 2,
            PagingMode::Level1_4 => 3,
            PagingMode::Reserved4 => 4,
            PagingMode::Level2_4 => 5,
            PagingMode::Level2_5 => 6,
            PagingMode::Reserved7 => 7,
        }
    }

    /// `true` when the mode enables translation (v1 or v2).
    #[verifier::allow_in_spec]
    pub fn translates(self) -> bool
        returns
            self is Level1_3 || self is Level1_4 || self is Level2_4 || self is Level2_5,
    {
        matches!(
            self,
            PagingMode::Level1_3 | PagingMode::Level1_4 | PagingMode::Level2_4
                | PagingMode::Level2_5
        )
    }
}

/// Law: decoding the encoding of a paging mode gives the mode back, and
/// encoding a decoded field gives the low three bits of the field.
pub proof fn lemma_paging_mode_roundtrip(m: PagingMode, v: u8)
    ensures
        PagingMode::from_bits(m.bits()) == m,
        PagingMode::from_bits(v).bits() == v % 8,
{
}

/// System management message handling (`SysMgt`, bits 105:104).
#[derive(Copy, Clone, Debug, Default, PartialEq, Eq, Structural)]
pub enum SysMgt {
    /// `00b` — target abort system-management transactions.
    #[default]
    TargetAbort,
    /// `01b` — forward all system-management messages untranslated.
    ForwardAll,
    /// `10b` — forward INTx only.
    ForwardIntx,
    /// `11b` — translate system-management address range.
    Translate,
}

impl SysMgt {
    /// Decode from the raw 2-bit field (the low two bits of `v`).
    #[verifier::allow_in_spec]
    pub fn from_bits(v: u8) -> SysMgt
        returns
            match v % 4 {
                1 => SysMgt::ForwardAll,
                2 => SysMgt::ForwardIntx,
                3 => SysMgt::Translate,
                _ => SysMgt::TargetAbort,
            },
    {
        match v % 4 {
            1 => SysMgt::ForwardAll,
            2 => SysMgt::ForwardIntx,
            3 => SysMgt::Translate,
            _ => SysMgt::TargetAbort,
        }
    }

    /// Raw 2-bit encoding.
    #[verifier::allow_in_spec]
    pub fn bits(self) -> u8
        returns
            match self {
                SysMgt::TargetAbort => 0u8,
                SysMgt::ForwardAll => 1,
                SysMgt::ForwardIntx => 2,
                SysMgt::Translate => 3,
            },
    {
        match self {
            SysMgt::TargetAbort => 0,
            SysMgt::ForwardAll => 1,
            SysMgt::ForwardIntx => 2,
            SysMgt::Translate => 3,
        }
    }
}

/// Law: decoding the encoding of a system-management mode gives the mode
/// back, and encoding a decoded field gives its low two bits.
pub proof fn lemma_sys_mgt_roundtrip(m: SysMgt, v: u8)
    ensures
        SysMgt::from_bits(m.bits()) == m,
        SysMgt::from_bits(v).bits() == v % 4,
{
}

/// Mask of the 4 KiB-aligned host page table root pointer (bits 51:12).
pub open spec fn host_ptr_mask() -> u64 {
    0x000f_ffff_ffff_f000
}

/// Device Table Entry — 256 bits.
#[derive(Copy, Clone, Debug, Default, PartialEq, Eq, Structural)]
pub struct DeviceTableEntry {
    /// DTE bits 63:0.
    pub q0: u64,
    /// DTE bits 127:64.
    pub q1: u64,
    /// DTE bits 191:128.
    pub q2: u64,
    /// DTE bits 255:192.
    pub q3: u64,
}

/// Facts about the masks the entry combines.
proof fn lemma_dte_masks(w: u64, addr: u64)
    by (bit_vector)
    ensures
        ((w & 0xfff0_0000_0000_0fff) | (addr & 0x000f_ffff_ffff_f000)) & 0x000f_ffff_ffff_f000
            == addr & 0x000f_ffff_ffff_f000,
        ((w & 0xfff0_0000_0000_0fff) | (addr & 0x000f_ffff_ffff_f000)) & !0x000f_ffff_ffff_f000u64
            == w & !0x000f_ffff_ffff_f000u64,
        (((((addr >> 12) >> 19) & 0x1f_ffff) << 31) | ((((addr >> 12) >> 3) & 0xffff) << 15) | (
        (((addr >> 12) & 0x7) & 0x7) << 12)) == addr & 0x000f_ffff_ffff_f000,
        field(with_field(w, 6, 46, addr >> 7), 6, 46) << 7 == addr & 0x1f_ffff_ffff_ff80,
        with_field(w, 6, 46, addr >> 7) & 0x3f == w & 0x3f,
        with_field(w, 6, 46, addr >> 7) >> 52 == w >> 52,
        addr % 128 == 0 && addr < 0x20_0000_0000_0000 ==> addr & 0x1f_ffff_ffff_ff80 == addr,
{
}

impl DeviceTableEntry {
    /// A fully zeroed (not valid) entry.
    pub fn new() -> (r: Self)
        ensures
            r == (DeviceTableEntry { q0: 0, q1: 0, q2: 0, q3: 0 }),
    {
        DeviceTableEntry { q0: 0, q1: 0, q2: 0, q3: 0 }
    }

    /// Entry valid (V, bit 0).
    #[verifier::allow_in_spec]
    pub fn valid(&self) -> bool
        returns
            flag(self.q0, 0),
    {
        get_flag(self.q0, 0)
    }

    /// Set the valid flag.
    pub fn with_valid(self, v: bool) -> (r: Self)
        ensures
            r == (DeviceTableEntry { q0: with_flag(self.q0, 0, v), ..self }),
            r.valid() == v,
    {
        proof {
            lemma_flag_with_flag(self.q0, 0, v, 0);
        }
        DeviceTableEntry { q0: put_flag(self.q0, 0, v), ..self }
    }

    /// Translation valid (TV, bit 1).
    #[verifier::allow_in_spec]
    pub fn translation_valid(&self) -> bool
        returns
            flag(self.q0, 1),
    {
        get_flag(self.q0, 1)
    }

    /// Set translation valid.
    pub fn with_translation_valid(self, v: bool) -> (r: Self)
        ensures
            r == (DeviceTableEntry { q0: with_flag(self.q0, 1, v), ..self }),
            r.translation_valid() == v,
    {
        proof {
            lemma_flag_with_flag(self.q0, 1, v, 1);
        }
        DeviceTableEntry { q0: put_flag(self.q0, 1, v), ..self }
    }

    /// Paging mode (Mode, bits 11:9).
    #[verifier::allow_in_spec]
    pub fn paging_mode(&self) -> PagingMode
        returns
            PagingMode::from_bits(field(self.q0, 9, 3) as u8),
    {
        PagingMode::from_bits(extract_bits(self.q0, 11, 9) as u8)
    }

    /// Set the paging mode.
    pub fn with_paging_mode(self, mode: PagingMode) -> (r: Self)
        ensures
            r == (DeviceTableEntry { q0: with_field(self.q0, 9, 3, mode.bits() as u64), ..self }),
            r.paging_mode() == mode,
    {
        proof {
            lemma_low_mask_values();
            lemma_field_roundtrip(self.q0, 9, 3, mode.bits() as u64);
        }
        DeviceTableEntry { q0: put_field(self.q0, 9, 3, mode.bits() as u64), ..self }
    }

    /// Host access descriptor enable (HAD, bits 8:7).
    #[verifier::allow_in_spec]
    pub fn had(&self) -> u8
        returns
            field(self.q0, 7, 2) as u8,
    {
        extract_bits(self.q0, 8, 7) as u8
    }

    /// Host page table root pointer (bits 51:12, in place).
    #[verifier::allow_in_spec]
    pub fn host_page_table_root(&self) -> u64
        returns
            self.q0 & host_ptr_mask(),
    {
        self.q0 & 0x000f_ffff_ffff_f000
    }

    /// Set the host page table root pointer (4 KiB aligned): bits 51:12 of
    /// `addr` replace the pointer field, every other bit is kept.
    pub fn with_host_page_table_root(self, addr: u64) -> (r: Self)
        ensures
            r == (DeviceTableEntry {
                q0: (self.q0 & !host_ptr_mask()) | (addr & host_ptr_mask()),
                ..self
            }),
            r.host_page_table_root() == addr & host_ptr_mask(),
            r.q0 & !host_ptr_mask() == self.q0 & !host_ptr_mask(),
    {
        proof {
            lemma_dte_masks(self.q0, addr);
            assert(!host_ptr_mask() == 0xfff0_0000_0000_0fffu64) by (bit_vector);
        }
        DeviceTableEntry {
            q0: (self.q0 & 0xfff0_0000_0000_0fff) | (addr & 0x000f_ffff_ffff_f000),
            ..self
        }
    }

    /// PPR enable (bit 52).
    #[verifier::allow_in_spec]
    pub fn ppr_enable(&self) -> bool
        returns
            flag(self.q0, 52),
    {
        get_flag(self.q0, 52)
    }

    /// Set PPR enable.
    pub fn with_ppr_enable(self, en: bool) -> (r: Self)
        ensures
            r == (DeviceTableEntry { q0: with_flag(self.q0, 52, en), ..self }),
            r.ppr_enable() == en,
    {
        proof {
            lemma_flag_with_flag(self.q0, 52, en, 52);
        }
        DeviceTableEntry { q0: put_flag(self.q0, 52, en), ..self }
    }

    /// Guest I/O virtual addressing valid (GIOV, bit 54).
    #[verifier::allow_in_spec]
    pub fn giov(&self) -> bool
        returns
            flag(self.q0, 54),
    {
        get_flag(self.q0, 54)
    }

    /// Guest translation valid (GV, bit 55).
    #[verifier::allow_in_spec]
    pub fn guest_translation_valid(&self) -> bool
        returns
            flag(self.q0, 55),
    {
        get_flag(self.q0, 55)
    }

    /// Set guest translation valid.
    pub fn with_guest_translation_valid(self, v: bool) -> (r: Self)
        ensures
            r == (DeviceTableEntry { q0: with_flag(self.q0, 55, v), ..self }),
            r.guest_translation_valid() == v,
    {
        proof {
            lemma_flag_with_flag(self.q0, 55, v, 55);
        }
        DeviceTableEntry { q0: put_flag(self.q0, 55, v), ..self }
    }

    /// Guest level size (GLX, bits 57:56).
    #[verifier::allow_in_spec]
    pub fn glx(&self) -> u8
        returns
            field(self.q0, 56, 2) as u8,
    {
        extract_bits(self.q0, 57, 56) as u8
    }

    /// Interrupt remapping enable (IR, bit 61).
    #[verifier::allow_in_spec]
    pub fn ir(&self) -> bool
        returns
            flag(self.q0, 61),
    {
        get_flag(self.q0, 61)
    }

    /// Set interrupt remapping enable.
    pub fn with_ir(self, en: bool) -> (r: Self)
        ensures
            r == (DeviceTableEntry { q0: with_flag(self.q0, 61, en), ..self }),
            r.ir() == en,
    {
        proof {
            lemma_flag_with_flag(self.q0, 61, en, 61);
        }
        DeviceTableEntry { q0: put_flag(self.q0, 61, en), ..self }
    }

    /// IOMMU-wide interrupt cache invalidate (IW, bit 62).
    #[verifier::allow_in_spec]
    pub fn iw(&self) -> bool
        returns
            flag(self.q0, 62),
    {
        get_flag(self.q0, 62)
    }

    /// Set IW.
    pub fn with_iw(self, en: bool) -> (r: Self)
        ensures
            r == (DeviceTableEntry { q0: with_flag(self.q0, 62, en), ..self }),
            r.iw() == en,
    {
        proof {
            lemma_flag_with_flag(self.q0, 62, en, 62);
        }
        DeviceTableEntry { q0: put_flag(self.q0, 62, en), ..self }
    }

    /// Snoop disable (SD, DTE bit 102 = `q1` bit 38).
    #[verifier::allow_in_spec]
    pub fn snoop_disable(&self) -> bool
        returns
            flag(self.q1, 38),
    {
        get_flag(self.q1, 38)
    }

    /// Set snoop disable.
    pub fn with_snoop_disable(self, en: bool) -> (r: Self)
        ensures
            r == (DeviceTableEntry { q1: with_flag(self.q1, 38, en), ..self }),
            r.snoop_disable() == en,
    {
        proof {
            lemma_flag_with_flag(self.q1, 38, en, 38);
        }
        DeviceTableEntry { q1: put_flag(self.q1, 38, en), ..self }
    }

    /// `true` when table walks are snooped (SD = 0).
    #[verifier::allow_in_spec]
    pub fn io_coherent(&self) -> bool
        returns
            !flag(self.q1, 38),
    {
        !self.snoop_disable()
    }

    /// Set I/O coherence through SD.
    pub fn with_io_coherent(self, coherent: bool) -> (r: Self)
        ensures
            r == (DeviceTableEntry { q1: with_flag(self.q1, 38, !coherent), ..self }),
            r.io_coherent() == coherent,
    {
        self.with_snoop_disable(!coherent)
    }

    /// Guest CR3 table root pointer (GCR3, bits 51:12) assembled from its
    /// three stored chunks (DTE bits 60:58, 95:80, 127:107).
    #[verifier::allow_in_spec]
    pub fn guest_cr3_table(&self) -> u64
        returns
            (field(self.q1, 43, 21) << 31) | (field(self.q1, 16, 16) << 15) | ((field(
                self.q0,
                58,
                3,
            ) & 0x7) << 12),
    {
        let a = extract_bits(self.q0, 60, 58) & 0x7;
        let b = extract_bits(self.q1, 31, 16);
        let c = extract_bits(self.q1, 63, 43);
        (c << 31) | (b << 15) | (a << 12)
    }

    /// Set the guest CR3 table root pointer into the three chunks. The
    /// pointer reads back as bits 51:12 of `addr`.
    pub fn with_guest_cr3_table(self, addr: u64) -> (r: Self)
        ensures
            r == (DeviceTableEntry {
                q0: with_field(self.q0, 58, 3, addr >> 12),
                q1: with_field(with_field(self.q1, 16, 16, (addr >> 12) >> 3), 43, 21, (addr >> 12)
                    >> 19),
                ..self
            }),
            r.guest_cr3_table() == addr & host_ptr_mask(),
    {
        let p = addr >> 12;
        let q0 = put_field(self.q0, 58, 3, p);
        let q1 = put_field(self.q1, 16, 16, p >> 3);
        let q1 = put_field(q1, 43, 21, p >> 19);
        proof {
            lemma_low_mask_values();
            lemma_field_roundtrip(self.q0, 58, 3, p);
            lemma_field_roundtrip(self.q1, 16, 16, p >> 3);
            lemma_field_with_field_other(with_field(self.q1, 16, 16, p >> 3), 43, 21, p >> 19, 16, 16);
            lemma_field_roundtrip(with_field(self.q1, 16, 16, p >> 3), 43, 21, p >> 19);
            lemma_dte_masks(self.q0, addr);
        }
        DeviceTableEntry { q0, q1, ..self }
    }

    /// Interrupt map valid (IV, DTE bit 128).
    #[verifier::allow_in_spec]
    pub fn interrupt_map_valid(&self) -> bool
        returns
            flag(self.q2, 0),
    {
        get_flag(self.q2, 0)
    }

    /// Set interrupt map valid.
    pub fn with_interrupt_map_valid(self, v: bool) -> (r: Self)
        ensures
            r == (DeviceTableEntry { q2: with_flag(self.q2, 0, v), ..self }),
            r.interrupt_map_valid() == v,
    {
        proof {
            lemma_flag_with_flag(self.q2, 0, v, 0);
        }
        DeviceTableEntry { q2: put_flag(self.q2, 0, v), ..self }
    }

    /// Interrupt table length (IntTabLen, DTE bits 132:129): the table
    /// holds `2^(len+1)` entries when IV = 1 and IntCtl = 10b.
    #[verifier::allow_in_spec]
    pub fn interrupt_table_len(&self) -> u8
        returns
            field(self.q2, 1, 4) as u8,
    {
        extract_bits(self.q2, 4, 1) as u8
    }

    /// Set the interrupt table length order (its low four bits).
    pub fn with_interrupt_table_len(self, len: u8) -> (r: Self)
        ensures
            r == (DeviceTableEntry { q2: with_field(self.q2, 1, 4, len as u64), ..self }),
            r.interrupt_table_len() == len % 16,
    {
        proof {
            lemma_low_mask_values();
            lemma_low_mask_mod(len as u64);
            lemma_field_roundtrip(self.q2, 1, 4, len as u64);
        }
        DeviceTableEntry { q2: put_field(self.q2, 1, 4, len as u64), ..self }
    }

    /// Interrupt table root pointer: DTE bits 179:134 (`q2` bits 51:6)
    /// shifted into a 128-byte aligned address.
    #[verifier::allow_in_spec]
    pub fn interrupt_table_ptr(&self) -> u64
        returns
            field(self.q2, 6, 46) << 7,
    {
        extract_bits(self.q2, 51, 6) << 7
    }

    /// Set the interrupt table root pointer (128-byte aligned): bits 52:7 of
    /// `addr` fill `q2` bits 51:6, every other bit is kept. A 128-byte
    /// aligned pointer below 2^53 reads back whole.
    pub fn with_interrupt_table_ptr(self, addr: u64) -> (r: Self)
        ensures
            r == (DeviceTableEntry { q2: with_field(self.q2, 6, 46, addr >> 7), ..self }),
            r.interrupt_table_ptr() == addr & 0x1f_ffff_ffff_ff80,
            addr % 128 == 0 && addr < 0x20_0000_0000_0000 ==> r.interrupt_table_ptr() == addr,
            r.q2 & 0x3f == self.q2 & 0x3f,
            r.q2 >> 52 == self.q2 >> 52,
    {
        proof {
            lemma_dte_masks(self.q2, addr);
        }
        DeviceTableEntry { q2: put_field(self.q2, 6, 46, addr >> 7), ..self }
    }

    /// Guest paging mode start level (DTE bits 183:182): 0 = 4-level
    /// PML4, 1 = 5-level PML5.
    #[verifier::allow_in_spec]
    pub fn guest_paging_mode(&self) -> u8
        returns
            field(self.q2, 54, 2) as u8,
    {
        extract_bits(self.q2, 55, 54) as u8
    }

    /// Set guest paging mode start level (its low two bits).
    pub fn with_guest_paging_mode(self, mode: u8) -> (r: Self)
        ensures
            r == (DeviceTableEntry { q2: with_field(self.q2, 54, 2, mode as u64), ..self }),
            r.guest_paging_mode() == mode % 4,
    {
        proof {
            lemma_low_mask_values();
            lemma_low_mask_mod(mode as u64);
            lemma_field_roundtrip(self.q2, 54, 2, mode as u64);
        }
        DeviceTableEntry { q2: put_field(self.q2, 54, 2, mode as u64), ..self }
    }

    /// INIT pass-through (DTE bit 184).
    #[verifier::allow_in_spec]
    pub fn init_pass(&self) -> bool
        returns
            flag(self.q2, 56),
    {
        get_flag(self.q2, 56)
    }

    /// ExtINT pass-through (DTE bit 185).
    #[verifier::allow_in_spec]
    pub fn extint_pass(&self) -> bool
        returns
            flag(self.q2, 57),
    {
        get_flag(self.q2, 57)
    }

    /// NMI pass-through (DTE bit 186).
    #[verifier::allow_in_spec]
    pub fn nmi_pass(&self) -> bool
        returns
            flag(self.q2, 58),
    {
        get_flag(self.q2, 58)
    }

    /// Guest device ID (GDeviceID, DTE bits 223:208).
    #[verifier::allow_in_spec]
    pub fn guest_device_id(&self) -> u16
        returns
            field(self.q3, 16, 16) as u16,
    {
        extract_bits(self.q3, 31, 16) as u16
    }

    /// Set the guest device ID.
    pub fn with_guest_device_id(self, id: u16) -> (r: Self)
        ensures
            r == (DeviceTableEntry { q3: with_field(self.q3, 16, 16, id as u64), ..self }),
            r.guest_device_id() == id,
    {
        proof {
            lemma_low_mask_values();
            lemma_field_roundtrip(self.q3, 16, 16, id as u64);
        }
        DeviceTableEntry { q3: put_field(self.q3, 16, 16, id as u64), ..self }
    }

    /// Guest ID (GuestID, DTE bits 239:224).
    #[verifier::allow_in_spec]
    pub fn guest_id(&self) -> u16
        returns
            field(self.q3, 32, 16) as u16,
    {
        extract_bits(self.q3, 47, 32) as u16
    }

    /// Set the guest ID.
    pub fn with_guest_id(self, id: u16) -> (r: Self)
        ensures
            r == (DeviceTableEntry { q3: with_field(self.q3, 32, 16, id as u64), ..self }),
            r.guest_id() == id,
    {
        proof {
            lemma_low_mask_values();
            lemma_field_roundtrip(self.q3, 32, 16, id as u64);
        }
        DeviceTableEntry { q3: put_field(self.q3, 32, 16, id as u64), ..self }
    }

    /// Raw 32 bytes, little-endian, ready to store in the device table.
    pub fn into_bytes(self) -> (r: [u8; 32])
        ensures
            le_image(seq![self.q0, self.q1, self.q2, self.q3], r@),
    {
        let words = [self.q0, self.q1, self.q2, self.q3];
        let mut out = [0u8; 32];
        let mut i: usize = 0;
        while i < 32
            invariant
                i <= 32,
                words@ == seq![self.q0, self.q1, self.q2, self.q3],
                forall|j: int| 0 <= j < i ==> #[trigger] out[j] == le_byte(words@[j / 8], j % 8),
            decreases 32 - i,
        {
            out[i] = (words[i / 8] >> (8 * (i % 8)) as u64) as u8;
            i += 1;
        }
        proof {
            assert(le_image(words@, out@));
        }
        out
    }
}

} // verus!
