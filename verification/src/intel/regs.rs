//! VT-d MMIO register map and capability registers.
//!
//! [`Cap`] and [`Ecap`] decode the two 64-bit capability registers; the
//! remaining helpers build and decode command and status register words
//! without a live MMIO mapping. Registers whose location depends on
//! capability fields (IOTLB at `ECAP.IRO`, fault records at `CAP.FRO`) are
//! located at run time — see [`iotlb_offset`] and [`fault_rec_offset`].
use vstd::prelude::*;

use crate::bitfield::{
    bit_of,
    field,
    flag,
    get_flag,
    lemma_low_mask_bounds,
    lemma_low_mask_values,
};
use crate::intel::bits::extract_bits;

verus! {

/// Version register.
pub const VER: u64 = 0x000;
/// Capability register.
pub const CAP: u64 = 0x008;
/// Extended capability register.
pub const ECAP: u64 = 0x010;
/// Global command register.
pub const GCMD: u64 = 0x018;
/// Global status register.
pub const GSTS: u64 = 0x01c;
/// Root table address register.
pub const RTADDR: u64 = 0x020;
/// Context command register.
pub const CCMD: u64 = 0x028;
/// Fault status register.
pub const FSTS: u64 = 0x034;
/// Fault event control register.
pub const FECTL: u64 = 0x038;
/// Fault event data register.
pub const FEDATA: u64 = 0x03c;
/// Fault event address register.
pub const FEADDR: u64 = 0x040;
/// Fault event upper address register.
pub const FEUADDR: u64 = 0x044;
/// Protected memory enable register.
pub const PMEN: u64 = 0x064;
/// Protected low memory base register.
pub const PLMBAS: u64 = 0x068;
/// Protected low memory limit register.
pub const PLMLIMIT: u64 = 0x06c;
/// Protected high memory base register.
pub const PHMBAS: u64 = 0x070;
/// Protected high memory limit register.
pub const PHMLIMIT: u64 = 0x078;
/// Invalidation queue head register.
pub const IQH: u64 = 0x080;
/// Invalidation queue tail register.
pub const IQT: u64 = 0x088;
/// Invalidation queue address register.
pub const IQA: u64 = 0x090;
/// Invalidation completion status register.
pub const ICS: u64 = 0x09c;
/// Invalidation completion event control register.
pub const IECTL: u64 = 0x0a0;
/// Invalidation completion event data register.
pub const IEDATA: u64 = 0x0a4;
/// Invalidation completion event address register.
pub const IEADDR: u64 = 0x0a8;
/// Invalidation completion event upper address register.
pub const IEUADDR: u64 = 0x0ac;
/// Invalidation queue error record register.
pub const IQERCD: u64 = 0x0b0;
/// Interrupt remapping table address register.
pub const IRTA: u64 = 0x0b8;
/// Page request queue head register.
pub const PQH: u64 = 0x0c0;
/// Page request queue tail register.
pub const PQT: u64 = 0x0c8;
/// Page request queue address register.
pub const PQA: u64 = 0x0d0;
/// Page request status register.
pub const PQS: u64 = 0x0dc;
/// Page request event control register.
pub const PECTL: u64 = 0x0e0;
/// Page request event data register.
pub const PEDATA: u64 = 0x0e4;
/// Page request event address register.
pub const PEADDR: u64 = 0x0e8;
/// Page request event upper address register.
pub const PEUADDR: u64 = 0x0ec;
/// MTRR capability register.
pub const MTRRCAP: u64 = 0x100;
/// MTRR default type register.
pub const MTRRDEF: u64 = 0x108;
/// First variable-range MTRR base register.
pub const MTRR_PHYSBASE0: u64 = 0x180;
/// First variable-range MTRR mask register.
pub const MTRR_PHYSMASK0: u64 = 0x188;
/// Performance monitoring capability register.
pub const PERFCAP: u64 = 0x300;
/// Enhanced command register.
pub const ECMD: u64 = 0x400;
/// Enhanced command operand offset register.
pub const ECEO: u64 = 0x408;
/// Enhanced command response register.
pub const ECRSP: u64 = 0x410;
/// Enhanced command capability register.
pub const ECCAP: u64 = 0x430;
/// Virtual command register.
pub const VCMD: u64 = 0x440;
/// Virtual command extended operand register.
pub const VCEO: u64 = 0x448;
/// Virtual command response register.
pub const VCRSP: u64 = 0x450;
/// Virtual command capability register.
pub const VCCAP: u64 = 0x458;

/// Size in bytes of one queue entry, as a shift (invalidation or page
/// request).
pub const QUEUE_ENTRY_SHIFT: u32 = 4;

/// Offsets of the IOTLB invalidation registers for a given `ECAP` value:
/// the invalidation address register sits at `ECAP.IRO * 16`, the IOTLB
/// invalidation control register 8 bytes above it.
pub fn iotlb_offset(ecap: Ecap) -> (r: (u64, u64))
    ensures
        r.0 == field(ecap.0, 8, 10) * 16,
        r.1 == field(ecap.0, 8, 10) * 16 + 8,
{
    proof {
        lemma_low_mask_values();
        lemma_low_mask_bounds(ecap.0 >> 8u64, 0, 10);
    }
    let iva = extract_bits(ecap.0, 17, 8) * 16;
    (iva, iva + 8)
}

/// Offset of fault-recording register `n` for a given `CAP` value:
/// `CAP.FRO * 16 + n * 16`.
pub fn fault_rec_offset(cap: Cap, n: u16) -> (r: u64)
    ensures
        r == field(cap.0, 24, 10) * 16 + n * 16,
{
    proof {
        lemma_low_mask_values();
        lemma_low_mask_bounds(cap.0 >> 24u64, 0, 10);
    }
    extract_bits(cap.0, 33, 24) * 16 + (n as u64) * 16
}

/// Decoded Capability Register (`CAP_REG`).
#[derive(Copy, Clone, Debug, Default, PartialEq, Eq, Structural)]
pub struct Cap(pub u64);

impl Cap {
    /// Wrap a raw register value.
    pub fn new(raw: u64) -> (r: Self)
        ensures
            r == Cap(raw),
    {
        Cap(raw)
    }

    /// Number of domains: `2^(ND*2 + 4)`, ND being bits 2:0.
    #[verifier::allow_in_spec]
    pub fn domain_ids(&self) -> u32
        returns
            1u32 << (4 + 2 * (field(self.0, 0, 3) as u32)) as u32,
    {
        proof {
            lemma_low_mask_values();
            lemma_low_mask_bounds(self.0 >> 0u64, 0, 3);
        }
        1u32 << (4 + 2 * (extract_bits(self.0, 2, 0) as u32))
    }

    /// Required write-buffer flushing (RWBF).
    #[verifier::allow_in_spec]
    pub fn rwbf(&self) -> bool
        returns
            field(self.0, 4, 1) != 0,
    {
        extract_bits(self.0, 4, 4) != 0
    }

    /// Protected low-memory region supported (PLMR).
    #[verifier::allow_in_spec]
    pub fn plmr(&self) -> bool
        returns
            field(self.0, 5, 1) != 0,
    {
        extract_bits(self.0, 5, 5) != 0
    }

    /// Protected high-memory region supported (PHMR).
    #[verifier::allow_in_spec]
    pub fn phmr(&self) -> bool
        returns
            field(self.0, 6, 1) != 0,
    {
        extract_bits(self.0, 6, 6) != 0
    }

    /// Caching mode (CM).
    #[verifier::allow_in_spec]
    pub fn caching_mode(&self) -> bool
        returns
            field(self.0, 7, 1) != 0,
    {
        extract_bits(self.0, 7, 7) != 0
    }

    /// Supported adjusted guest address widths (SAGAW): bit 1 = 39-bit, bit 2 = 48-bit, bit 3 = 57-bit.
    #[verifier::allow_in_spec]
    pub fn sagaw(&self) -> u8
        returns
            field(self.0, 8, 5) as u8,
    {
        extract_bits(self.0, 12, 8) as u8
    }

    /// Maximum guest address width in bits (MGAW, bits 21:16, plus one).
    #[verifier::allow_in_spec]
    pub fn mgaw(&self) -> u32
        returns
            (field(self.0, 16, 6) + 1) as u32,
    {
        proof {
            lemma_low_mask_values();
            lemma_low_mask_bounds(self.0 >> 16u64, 0, 6);
        }
        extract_bits(self.0, 21, 16) as u32 + 1
    }

    /// Zero-length read support (ZLR).
    #[verifier::allow_in_spec]
    pub fn zlr(&self) -> bool
        returns
            field(self.0, 22, 1) != 0,
    {
        extract_bits(self.0, 22, 22) != 0
    }

    /// Deprecated field (must read 0).
    #[verifier::allow_in_spec]
    pub fn dep(&self) -> bool
        returns
            field(self.0, 23, 1) != 0,
    {
        extract_bits(self.0, 23, 23) != 0
    }

    /// Offset (in units of 16 bytes) of the first fault recording register (FRO).
    #[verifier::allow_in_spec]
    pub fn fault_rec_offset_raw(&self) -> u16
        returns
            field(self.0, 24, 10) as u16,
    {
        extract_bits(self.0, 33, 24) as u16
    }

    /// Second-stage large page support (SSLPS): bit 0 = 2 MiB, bit 1 = 1 GiB.
    #[verifier::allow_in_spec]
    pub fn sslps(&self) -> u8
        returns
            field(self.0, 34, 4) as u8,
    {
        extract_bits(self.0, 37, 34) as u8
    }

    /// Page-selective IOTLB invalidation support (PSI).
    #[verifier::allow_in_spec]
    pub fn page_selective_inval(&self) -> bool
        returns
            field(self.0, 39, 1) != 0,
    {
        extract_bits(self.0, 39, 39) != 0
    }

    /// Number of fault recording registers (NFR, bits 47:40, plus one).
    #[verifier::allow_in_spec]
    pub fn num_fault_regs(&self) -> u16
        returns
            (field(self.0, 40, 8) + 1) as u16,
    {
        proof {
            lemma_low_mask_values();
            lemma_low_mask_bounds(self.0 >> 40u64, 0, 8);
        }
        extract_bits(self.0, 47, 40) as u16 + 1
    }

    /// Maximum address mask value for page-selective invalidations (MAMV).
    #[verifier::allow_in_spec]
    pub fn max_amask_value(&self) -> u8
        returns
            field(self.0, 48, 6) as u8,
    {
        extract_bits(self.0, 53, 48) as u8
    }

    /// Write draining on IOTLB invalidation (DWD).
    #[verifier::allow_in_spec]
    pub fn write_drain(&self) -> bool
        returns
            field(self.0, 54, 1) != 0,
    {
        extract_bits(self.0, 54, 54) != 0
    }

    /// Read draining on IOTLB invalidation (DRD).
    #[verifier::allow_in_spec]
    pub fn read_drain(&self) -> bool
        returns
            field(self.0, 55, 1) != 0,
    {
        extract_bits(self.0, 55, 55) != 0
    }

    /// First-stage 1-GiB page support (FS1GP).
    #[verifier::allow_in_spec]
    pub fn fs_1g_pages(&self) -> bool
        returns
            field(self.0, 56, 1) != 0,
    {
        extract_bits(self.0, 56, 56) != 0
    }

    /// Posted interrupt support (PI).
    #[verifier::allow_in_spec]
    pub fn posted_interrupts(&self) -> bool
        returns
            field(self.0, 59, 1) != 0,
    {
        extract_bits(self.0, 59, 59) != 0
    }

    /// First-stage 5-level paging support (FS5LP).
    #[verifier::allow_in_spec]
    pub fn fs_5level(&self) -> bool
        returns
            field(self.0, 60, 1) != 0,
    {
        extract_bits(self.0, 60, 60) != 0
    }

    /// Enhanced command interface support (ECMDS).
    #[verifier::allow_in_spec]
    pub fn enhanced_commands(&self) -> bool
        returns
            field(self.0, 61, 1) != 0,
    {
        extract_bits(self.0, 61, 61) != 0
    }

    /// Set-interrupt-remap-table-pointer cache invalidation (ESIRTPS).
    #[verifier::allow_in_spec]
    pub fn esirtps(&self) -> bool
        returns
            field(self.0, 62, 1) != 0,
    {
        extract_bits(self.0, 62, 62) != 0
    }

    /// Set-root-table-pointer cache invalidation (ESRTPS).
    #[verifier::allow_in_spec]
    pub fn esrtps(&self) -> bool
        returns
            field(self.0, 63, 1) != 0,
    {
        extract_bits(self.0, 63, 63) != 0
    }
}

/// Decoded Extended Capability Register (`ECAP_REG`).
#[derive(Copy, Clone, Debug, Default, PartialEq, Eq, Structural)]
pub struct Ecap(pub u64);

impl Ecap {
    /// Wrap a raw register value.
    pub fn new(raw: u64) -> (r: Self)
        ensures
            r == Ecap(raw),
    {
        Ecap(raw)
    }

    /// Page-walk coherency (C).
    #[verifier::allow_in_spec]
    pub fn coherent(&self) -> bool
        returns
            field(self.0, 0, 1) != 0,
    {
        extract_bits(self.0, 0, 0) != 0
    }

    /// Queued invalidation support (QI).
    #[verifier::allow_in_spec]
    pub fn queued_inval(&self) -> bool
        returns
            field(self.0, 1, 1) != 0,
    {
        extract_bits(self.0, 1, 1) != 0
    }

    /// Device-TLB support (DT).
    #[verifier::allow_in_spec]
    pub fn dev_tlb(&self) -> bool
        returns
            field(self.0, 2, 1) != 0,
    {
        extract_bits(self.0, 2, 2) != 0
    }

    /// Interrupt remapping support (IR).
    #[verifier::allow_in_spec]
    pub fn intr_remap(&self) -> bool
        returns
            field(self.0, 3, 1) != 0,
    {
        extract_bits(self.0, 3, 3) != 0
    }

    /// Extended interrupt mode supported (EIM).
    #[verifier::allow_in_spec]
    pub fn extended_intr_mode(&self) -> bool
        returns
            field(self.0, 4, 1) != 0,
    {
        extract_bits(self.0, 4, 4) != 0
    }

    /// Pass-through translation support (PT).
    #[verifier::allow_in_spec]
    pub fn pass_through(&self) -> bool
        returns
            field(self.0, 6, 1) != 0,
    {
        extract_bits(self.0, 6, 6) != 0
    }

    /// Snoop control support (SC).
    #[verifier::allow_in_spec]
    pub fn snoop_control(&self) -> bool
        returns
            field(self.0, 7, 1) != 0,
    {
        extract_bits(self.0, 7, 7) != 0
    }

    /// IOTLB register offset in units of 16 bytes (IRO).
    #[verifier::allow_in_spec]
    pub fn iotlb_offset_raw(&self) -> u16
        returns
            field(self.0, 8, 10) as u16,
    {
        extract_bits(self.0, 17, 8) as u16
    }

    /// Maximum handle mask value for Device-TLB invalidations (MHMV).
    #[verifier::allow_in_spec]
    pub fn max_handle_mask(&self) -> u8
        returns
            field(self.0, 20, 4) as u8,
    {
        extract_bits(self.0, 23, 20) as u8
    }

    /// Memory type support (MTS).
    #[verifier::allow_in_spec]
    pub fn memory_type(&self) -> bool
        returns
            field(self.0, 25, 1) != 0,
    {
        extract_bits(self.0, 25, 25) != 0
    }

    /// Nested translation support (NEST).
    #[verifier::allow_in_spec]
    pub fn nested(&self) -> bool
        returns
            field(self.0, 26, 1) != 0,
    {
        extract_bits(self.0, 26, 26) != 0
    }

    /// Deferred invalidation support (DIS).
    #[verifier::allow_in_spec]
    pub fn deferred_inval(&self) -> bool
        returns
            field(self.0, 27, 1) != 0,
    {
        extract_bits(self.0, 27, 27) != 0
    }

    /// Page request support (PRS).
    #[verifier::allow_in_spec]
    pub fn page_requests(&self) -> bool
        returns
            field(self.0, 29, 1) != 0,
    {
        extract_bits(self.0, 29, 29) != 0
    }

    /// Execute request support (ERS).
    #[verifier::allow_in_spec]
    pub fn execute_requests(&self) -> bool
        returns
            field(self.0, 30, 1) != 0,
    {
        extract_bits(self.0, 30, 30) != 0
    }

    /// Supervisor request support (SRS).
    #[verifier::allow_in_spec]
    pub fn supervisor_requests(&self) -> bool
        returns
            field(self.0, 31, 1) != 0,
    {
        extract_bits(self.0, 31, 31) != 0
    }

    /// No-write flag support (NWFS).
    #[verifier::allow_in_spec]
    pub fn no_write_flag(&self) -> bool
        returns
            field(self.0, 33, 1) != 0,
    {
        extract_bits(self.0, 33, 33) != 0
    }

    /// Extended accessed flag support (EAFS).
    #[verifier::allow_in_spec]
    pub fn extended_accessed_flag(&self) -> bool
        returns
            field(self.0, 34, 1) != 0,
    {
        extract_bits(self.0, 34, 34) != 0
    }

    /// PASID size supported: `2^(PSS+1) - 1` is the largest PASID value.
    #[verifier::allow_in_spec]
    pub fn pasid_size(&self) -> u8
        returns
            field(self.0, 35, 5) as u8,
    {
        extract_bits(self.0, 39, 35) as u8
    }

    /// PASID support (PASID).
    #[verifier::allow_in_spec]
    pub fn pasid(&self) -> bool
        returns
            field(self.0, 40, 1) != 0,
    {
        extract_bits(self.0, 40, 40) != 0
    }

    /// Device-TLB invalidation throttling (DIT).
    #[verifier::allow_in_spec]
    pub fn devtlb_inval_throttle(&self) -> bool
        returns
            field(self.0, 41, 1) != 0,
    {
        extract_bits(self.0, 41, 41) != 0
    }

    /// PASID-based Device-TLB support (PDS).
    #[verifier::allow_in_spec]
    pub fn pasid_devtlb(&self) -> bool
        returns
            field(self.0, 42, 1) != 0,
    {
        extract_bits(self.0, 42, 42) != 0
    }

    /// Scalable-mode translation support (SMTS).
    #[verifier::allow_in_spec]
    pub fn scalable_mode(&self) -> bool
        returns
            field(self.0, 43, 1) != 0,
    {
        extract_bits(self.0, 43, 43) != 0
    }

    /// Virtual command support (VCS).
    #[verifier::allow_in_spec]
    pub fn virtual_commands(&self) -> bool
        returns
            field(self.0, 44, 1) != 0,
    {
        extract_bits(self.0, 44, 44) != 0
    }

    /// Second-stage accessed/dirty flag support (SSADS).
    #[verifier::allow_in_spec]
    pub fn ss_accessed_dirty(&self) -> bool
        returns
            field(self.0, 45, 1) != 0,
    {
        extract_bits(self.0, 45, 45) != 0
    }

    /// Second-level (stage) translation support (SLTS).
    #[verifier::allow_in_spec]
    pub fn second_stage(&self) -> bool
        returns
            field(self.0, 46, 1) != 0,
    {
        extract_bits(self.0, 46, 46) != 0
    }

    /// First-level (stage) translation support (FLTS).
    #[verifier::allow_in_spec]
    pub fn first_stage(&self) -> bool
        returns
            field(self.0, 47, 1) != 0,
    {
        extract_bits(self.0, 47, 47) != 0
    }

    /// Scalable-mode page-walk coherency (SMPWCS).
    #[verifier::allow_in_spec]
    pub fn sm_page_walk_coherency(&self) -> bool
        returns
            field(self.0, 48, 1) != 0,
    {
        extract_bits(self.0, 48, 48) != 0
    }

    /// RID_PASID support (RPS).
    #[verifier::allow_in_spec]
    pub fn rid_pasid(&self) -> bool
        returns
            field(self.0, 49, 1) != 0,
    {
        extract_bits(self.0, 49, 49) != 0
    }

    /// TDX-connect support (TDXCS).
    #[verifier::allow_in_spec]
    pub fn tdx_connect(&self) -> bool
        returns
            field(self.0, 50, 1) != 0,
    {
        extract_bits(self.0, 50, 50) != 0
    }

    /// Performance monitoring support (PMS).
    #[verifier::allow_in_spec]
    pub fn perf_monitoring(&self) -> bool
        returns
            field(self.0, 51, 1) != 0,
    {
        extract_bits(self.0, 51, 51) != 0
    }

    /// Abort DMA mode support (ADMS).
    #[verifier::allow_in_spec]
    pub fn abort_dma_mode(&self) -> bool
        returns
            field(self.0, 52, 1) != 0,
    {
        extract_bits(self.0, 52, 52) != 0
    }

    /// RID_PRIV support (RPRIVS).
    #[verifier::allow_in_spec]
    pub fn rid_priv(&self) -> bool
        returns
            field(self.0, 53, 1) != 0,
    {
        extract_bits(self.0, 53, 53) != 0
    }

    /// Host permission table support (HPTS).
    #[verifier::allow_in_spec]
    pub fn host_permission_table(&self) -> bool
        returns
            field(self.0, 55, 1) != 0,
    {
        extract_bits(self.0, 55, 55) != 0
    }

    /// PASID in translated requests (PTRS).
    #[verifier::allow_in_spec]
    pub fn pasid_translated(&self) -> bool
        returns
            field(self.0, 56, 1) != 0,
    {
        extract_bits(self.0, 56, 56) != 0
    }

    /// Second-stage I/O read/write permission bits (SSIRWS).
    #[verifier::allow_in_spec]
    pub fn ss_io_rw_bits(&self) -> bool
        returns
            field(self.0, 57, 1) != 0,
    {
        extract_bits(self.0, 57, 57) != 0
    }

    /// Stop-marker support (SMS).
    #[verifier::allow_in_spec]
    pub fn stop_marker(&self) -> bool
        returns
            field(self.0, 58, 1) != 0,
    {
        extract_bits(self.0, 58, 58) != 0
    }

    /// HPT 1-GiB page support (HPT1GPS).
    #[verifier::allow_in_spec]
    pub fn hpt_1g_pages(&self) -> bool
        returns
            field(self.0, 59, 1) != 0,
    {
        extract_bits(self.0, 59, 59) != 0
    }

    /// RDT configuration support (RDTS).
    #[verifier::allow_in_spec]
    pub fn rdt_config(&self) -> bool
        returns
            field(self.0, 60, 1) != 0,
    {
        extract_bits(self.0, 60, 60) != 0
    }

    /// Extended interrupt mode required (EIMER).
    #[verifier::allow_in_spec]
    pub fn eim_required(&self) -> bool
        returns
            field(self.0, 61, 1) != 0,
    {
        extract_bits(self.0, 61, 61) != 0
    }

    /// Interrupt remapping required (IRREQ).
    #[verifier::allow_in_spec]
    pub fn ir_required(&self) -> bool
        returns
            field(self.0, 62, 1) != 0,
    {
        extract_bits(self.0, 62, 62) != 0
    }
}

/// Global Command Register (`GCMD`) write bits.
#[derive(Copy, Clone, Debug, Default, PartialEq, Eq, Structural)]
pub struct Gcmd(pub u32);

impl Gcmd {
    /// Enable translation (TE).
    pub const ENABLE: u32 = 1 << 31;
    /// Set root table pointer (SRTP).
    pub const SRTP: u32 = 1 << 30;
    /// Set fault log (SFL).
    pub const SFL: u32 = 1 << 29;
    /// Write buffer flush (WBF).
    pub const WBF: u32 = 1 << 28;
    /// Enable ATS (EA).
    pub const EA: u32 = 1 << 27;
    /// Queued invalidation enable (QIE).
    pub const QIE: u32 = 1 << 26;
    /// Interrupt remapping enable (IRE).
    pub const IRE: u32 = 1 << 25;
    /// Set interrupt remap table pointer (SIRTP).
    pub const SIRTP: u32 = 1 << 24;
    /// Compatibility format interrupt (CFI).
    pub const CFI: u32 = 1 << 23;

    /// Every named bit.
    pub const ALL: u32 = 0xff800000;

    /// Raw register value.
    #[verifier::allow_in_spec]
    pub fn bits(&self) -> u32
        returns
            self.0,
    {
        self.0
    }

    /// Keep every bit of `bits`, named or not.
    #[verifier::allow_in_spec]
    pub fn from_bits_retain(bits: u32) -> Gcmd
        returns
            Gcmd(bits),
    {
        Gcmd(bits)
    }

    /// Keep only the named bits of `bits`.
    #[verifier::allow_in_spec]
    pub fn from_bits_truncate(bits: u32) -> Gcmd
        returns
            Gcmd(bits & Gcmd::ALL),
    {
        Gcmd(bits & Gcmd::ALL)
    }

    /// `true` when every bit of `mask` is set.
    #[verifier::allow_in_spec]
    pub fn contains(&self, mask: u32) -> bool
        returns
            self.0 & mask == mask,
    {
        self.0 & mask == mask
    }
}

/// Global Status Register (`GSTS`) read bits; they mirror the GCMD positions.
#[derive(Copy, Clone, Debug, Default, PartialEq, Eq, Structural)]
pub struct Gsts(pub u32);

impl Gsts {
    /// Translation enabled (TES).
    pub const TES: u32 = 1 << 31;
    /// Root table pointer set (RTPS).
    pub const RTPS: u32 = 1 << 30;
    /// Fault log enabled (FLS).
    pub const FLS: u32 = 1 << 29;
    /// Write buffer flushed (WBFS).
    pub const WBFS: u32 = 1 << 28;
    /// ATS enabled (EAS).
    pub const EAS: u32 = 1 << 27;
    /// Queued invalidation enabled (QIES).
    pub const QIES: u32 = 1 << 26;
    /// Interrupt remapping enabled (IRES).
    pub const IRES: u32 = 1 << 25;
    /// Interrupt remap table pointer set (IRTPS).
    pub const IRTPS: u32 = 1 << 24;
    /// Compatibility format interrupts pending (CFIS).
    pub const CFIS: u32 = 1 << 23;

    /// Every named bit.
    pub const ALL: u32 = 0xff800000;

    /// Raw register value.
    #[verifier::allow_in_spec]
    pub fn bits(&self) -> u32
        returns
            self.0,
    {
        self.0
    }

    /// Keep every bit of `bits`, named or not.
    #[verifier::allow_in_spec]
    pub fn from_bits_retain(bits: u32) -> Gsts
        returns
            Gsts(bits),
    {
        Gsts(bits)
    }

    /// Keep only the named bits of `bits`.
    #[verifier::allow_in_spec]
    pub fn from_bits_truncate(bits: u32) -> Gsts
        returns
            Gsts(bits & Gsts::ALL),
    {
        Gsts(bits & Gsts::ALL)
    }

    /// `true` when every bit of `mask` is set.
    #[verifier::allow_in_spec]
    pub fn contains(&self, mask: u32) -> bool
        returns
            self.0 & mask == mask,
    {
        self.0 & mask == mask
    }
}

/// Major/minor architecture version from the Version register.
#[derive(Copy, Clone, Debug, PartialEq, Eq, Structural)]
pub struct Version {
    /// Major version.
    pub major: u8,
    /// Minor version.
    pub minor: u8,
}

impl Version {
    /// Decode a raw Version register value: major in bits 7:4, minor in
    /// bits 3:0.
    pub fn new(raw: u32) -> (r: Self)
        ensures
            r == (Version { major: ((raw & 0xf0) >> 4) as u8, minor: (raw & 0x0f) as u8 }),
    {
        Version { major: ((raw & 0xf0) >> 4) as u8, minor: (raw & 0x0f) as u8 }
    }
}

/// Root Table Address Register word (`RTADDR`).
///
/// * bits 63:12 — root-table base address
/// * bits 11:10 — translation table mode (TTM)
#[derive(Copy, Clone, Debug, Default, PartialEq, Eq, Structural)]
pub struct Rtaddr(pub u64);

/// Translation Table Mode (TTM) encoding of `RTADDR_REG`.
#[derive(Copy, Clone, Debug, PartialEq, Eq, Structural)]
pub enum TableMode {
    /// Legacy root/context tables.
    Legacy,
    /// Scalable-mode root/context tables.
    Scalable,
    /// Abort DMA mode (all requests blocked).
    AbortDma,
    /// Reserved encoding.
    Reserved,
}

impl Rtaddr {
    /// Translation table mode (bits 11:10).
    #[verifier::allow_in_spec]
    pub fn table_mode(&self) -> TableMode
        returns
            match field(self.0, 10, 2) {
                0 => TableMode::Legacy,
                1 => TableMode::Scalable,
                2 => TableMode::AbortDma,
                _ => TableMode::Reserved,
            },
    {
        let ttm = extract_bits(self.0, 11, 10);
        if ttm == 0 {
            TableMode::Legacy
        } else if ttm == 1 {
            TableMode::Scalable
        } else if ttm == 2 {
            TableMode::AbortDma
        } else {
            TableMode::Reserved
        }
    }

    /// Root-table base address (bits 63:12, in place).
    #[verifier::allow_in_spec]
    pub fn table_base(&self) -> u64
        returns
            field(self.0, 12, 52) << 12,
    {
        extract_bits(self.0, 63, 12) << 12
    }
}

/// Context-cache invalidation granularity (`CIRG`).
#[derive(Copy, Clone, Debug, PartialEq, Eq, Structural)]
pub enum Cirg {
    /// Reserved encoding (00b).
    Reserved,
    /// Global invalidation (01b).
    Global,
    /// Domain-selective invalidation (10b).
    Domain,
    /// Device-selective invalidation (11b).
    Device,
}

/// The 2-bit encoding of a context-cache granularity.
pub open spec fn cirg_bits(g: Cirg) -> u64 {
    match g {
        Cirg::Reserved => 0,
        Cirg::Global => 1,
        Cirg::Domain => 2,
        Cirg::Device => 3,
    }
}

/// The context-cache granularity of a 2-bit code.
pub open spec fn cirg_of(v: u64) -> Cirg {
    if v == 1 {
        Cirg::Global
    } else if v == 2 {
        Cirg::Domain
    } else if v == 3 {
        Cirg::Device
    } else {
        Cirg::Reserved
    }
}

/// The CCMD word built from its fields. The function mask lands on bits
/// 33:32, the low two bits of the SID field.
pub open spec fn ccmd_word(g: u64, did: u16, sid: u16, fm: u8) -> u64 {
    (g << 4) | ((did as u64) << 8) | ((sid as u64) << 32) | (((fm as u64) & 0x3) << 32)
}

/// The IOTLB invalidation control word built from its fields.
pub open spec fn iotlb_inval_word(g: u64, did: u16, drain_reads: bool, drain_writes: bool) -> u64 {
    (g << 60) | (bit_of(drain_reads) << 49) | (bit_of(drain_writes) << 48) | ((did as u64) << 32)
}

/// How the command and address words decode.
proof fn lemma_register_words(
    g: u64,
    did: u16,
    sid: u16,
    fm: u8,
    base: u64,
    wide: bool,
    size: u8,
    x2apic: bool,
    dr: bool,
    dw: bool,
    am: u8,
)
    by (bit_vector)
    requires
        g < 4,
    ensures
        field(ccmd_word(g, did, sid, fm), 4, 2) == g,
        field(ccmd_word(g, did, sid, fm), 8, 24) as u16 == did,
        field(ccmd_word(g, did, sid, fm), 32, 16) as u16 == sid | (fm & 0x3) as u16,
        field(ccmd_word(g, did, sid, fm), 32, 2) as u8 == (sid as u8 | fm) & 0x3,
        field(ccmd_word(g, did, sid, fm), 63, 1) == 0,
        field((base & 0xffff_ffff_ffff_f000) | (bit_of(wide) << 4), 12, 52) << 12 == base
            & 0xffff_ffff_ffff_f000,
        (field((base & 0xffff_ffff_ffff_f000) | (bit_of(wide) << 4), 4, 1) != 0) == wide,
        flag((base & 0xffff_ffff_ffff_f000) | (((size as u64) & 0x3) << 14) | (bit_of(x2apic) << 11), 11)
            == x2apic,
        field(base, 14, 2) == 0 ==> field(
            (base & 0xffff_ffff_ffff_f000) | (((size as u64) & 0x3) << 14) | (bit_of(x2apic) << 11),
            14,
            2,
        ) as u8 == size & 0x3,
        (size & 0x3) == 0 ==> field(
            (base & 0xffff_ffff_ffff_f000) | (((size as u64) & 0x3) << 14) | (bit_of(x2apic) << 11),
            12,
            52,
        ) << 12 == base & 0xffff_ffff_ffff_f000,
        field(iotlb_inval_word(g, did, dr, dw), 60, 2) == g,
        field(iotlb_inval_word(g, did, dr, dw), 32, 16) as u16 == did,
        field(iotlb_inval_word(g, did, dr, dw), 63, 1) == 0,
        field((base & 0xffff_ffff_ffff_f000) | ((am as u64) & 0x3f), 12, 52) << 12 == base
            & 0xffff_ffff_ffff_f000,
        field((base & 0xffff_ffff_ffff_f000) | ((am as u64) & 0x3f), 0, 6) as u8 == am & 0x3f,
{
}

/// A byte masked with its low bits is its value modulo a power of two.
proof fn lemma_u8_low_bits(v: u8)
    by (bit_vector)
    ensures
        v & 0x3 == v % 4,
        v & 0x3f == v % 64,
{
}

/// Context Command Register word (`CCMD`).
///
/// * bit 63 — ICC (initiate cache invalidation)
/// * bits 5:4 — CIRG (invalidation granularity)
/// * bits 47:32 — SID, bits 33:32 — FM, bits 23:8 — DID
#[derive(Copy, Clone, Debug, Default, PartialEq, Eq, Structural)]
pub struct Ccmd(pub u64);

impl Ccmd {
    /// Build a CCMD word. The function mask shares bits 33:32 with the low
    /// bits of the SID, so the SID reads back with the mask ORed in.
    pub fn new(granularity: Cirg, did: u16, sid: u16, fm: u8) -> (r: Self)
        ensures
            r == Ccmd(ccmd_word(cirg_bits(granularity), did, sid, fm)),
            r.granularity() == granularity,
            r.did() == did,
            r.sid() == sid | (fm % 4) as u16,
            r.fm() == (sid as u8 | fm) % 4,
            !r.initiate(),
    {
        proof {
            lemma_register_words(cirg_bits(granularity), did, sid, fm, 0, false, 0, false, false, false, 0);
            lemma_u8_low_bits(fm);
            lemma_u8_low_bits(sid as u8 | fm);
        }
        let cirg: u64 = match granularity {
            Cirg::Reserved => 0,
            Cirg::Global => 1,
            Cirg::Domain => 2,
            Cirg::Device => 3,
        };
        let mut v = (cirg << 4) | ((did as u64) << 8) | ((sid as u64) << 32);
        v = v | (((fm as u64) & 0x3) << 32);
        Ccmd(v)
    }

    /// Initiate-invalidation bit (63).
    #[verifier::allow_in_spec]
    pub fn initiate(&self) -> bool
        returns
            field(self.0, 63, 1) != 0,
    {
        extract_bits(self.0, 63, 63) != 0
    }

    /// Granularity (bits 5:4).
    #[verifier::allow_in_spec]
    pub fn granularity(&self) -> Cirg
        returns
            cirg_of(field(self.0, 4, 2)),
    {
        let g = extract_bits(self.0, 5, 4);
        if g == 1 {
            Cirg::Global
        } else if g == 2 {
            Cirg::Domain
        } else if g == 3 {
            Cirg::Device
        } else {
            Cirg::Reserved
        }
    }

    /// Domain id (bits 31:8, cut to 16 bits).
    #[verifier::allow_in_spec]
    pub fn did(&self) -> u16
        returns
            field(self.0, 8, 24) as u16,
    {
        extract_bits(self.0, 31, 8) as u16
    }

    /// Source id (bits 47:32).
    #[verifier::allow_in_spec]
    pub fn sid(&self) -> u16
        returns
            field(self.0, 32, 16) as u16,
    {
        extract_bits(self.0, 47, 32) as u16
    }

    /// Function mask (bits 33:32).
    #[verifier::allow_in_spec]
    pub fn fm(&self) -> u8
        returns
            field(self.0, 32, 2) as u8,
    {
        extract_bits(self.0, 33, 32) as u8
    }
}

/// Invalidation Queue Address Register word (`IQA`).
///
/// * bits 63:12 — queue base address
/// * bit 4 — DW (descriptor width: 0 = 128-bit, 1 = 256-bit)
#[derive(Copy, Clone, Debug, Default, PartialEq, Eq, Structural)]
pub struct Iqa(pub u64);

impl Iqa {
    /// Build an IQA word from a 4 KiB aligned base address and width flag.
    pub fn new(base: u64, wide: bool) -> (r: Self)
        ensures
            r == Iqa((base & 0xffff_ffff_ffff_f000) | (bit_of(wide) << 4)),
            r.base() == base & 0xffff_ffff_ffff_f000,
            r.wide_descriptors() == wide,
    {
        proof {
            lemma_register_words(0, 0, 0, 0, base, wide, 0, false, false, false, 0);
        }
        let w: u64 = if wide {
            1
        } else {
            0
        };
        Iqa((base & 0xffff_ffff_ffff_f000) | (w << 4))
    }

    /// Queue base address (bits 63:12, in place).
    #[verifier::allow_in_spec]
    pub fn base(&self) -> u64
        returns
            field(self.0, 12, 52) << 12,
    {
        extract_bits(self.0, 63, 12) << 12
    }

    /// Descriptor width: `true` for 256-bit descriptors (bit 4).
    #[verifier::allow_in_spec]
    pub fn wide_descriptors(&self) -> bool
        returns
            field(self.0, 4, 1) != 0,
    {
        extract_bits(self.0, 4, 4) != 0
    }
}

/// Interrupt Remapping Table Address Register word (`IRTA`).
///
/// * bits 63:12 — table base
/// * bits 15:14 — S (table size: `2^(S+1)` entries)
/// * bit 11 — EIME (x2APIC mode)
#[derive(Copy, Clone, Debug, Default, PartialEq, Eq, Structural)]
pub struct Irta(pub u64);

impl Irta {
    /// Build an IRTA word. The size field lies inside the base address
    /// bits, so each reads back only when the other leaves it clear.
    pub fn new(base: u64, size_order: u8, x2apic: bool) -> (r: Self)
        ensures
            r == Irta(
                (base & 0xffff_ffff_ffff_f000) | (((size_order as u64) & 0x3) << 14) | (bit_of(
                    x2apic,
                ) << 11),
            ),
            r.eime() == x2apic,
            field(base, 14, 2) == 0 ==> r.size_order() == size_order % 4,
            size_order % 4 == 0 ==> r.base() == base & 0xffff_ffff_ffff_f000,
    {
        proof {
            lemma_register_words(0, 0, 0, 0, base, false, size_order, x2apic, false, false, 0);
            lemma_u8_low_bits(size_order);
        }
        let x: u64 = if x2apic {
            1
        } else {
            0
        };
        Irta((base & 0xffff_ffff_ffff_f000) | (((size_order as u64) & 0x3) << 14) | (x << 11))
    }

    /// Table base address (bits 63:12, in place).
    #[verifier::allow_in_spec]
    pub fn base(&self) -> u64
        returns
            field(self.0, 12, 52) << 12,
    {
        extract_bits(self.0, 63, 12) << 12
    }

    /// Table size order (bits 15:14): the table holds `2^(S+1)` entries.
    #[verifier::allow_in_spec]
    pub fn size_order(&self) -> u8
        returns
            field(self.0, 14, 2) as u8,
    {
        extract_bits(self.0, 15, 14) as u8
    }

    /// Extended interrupt mode enable (x2APIC destinations, bit 11).
    #[verifier::allow_in_spec]
    pub fn eime(&self) -> bool
        returns
            flag(self.0, 11),
    {
        get_flag(self.0, 11)
    }
}

/// IOTLB Invalidation control word (`IOTLB_REG`, at IVA+8).
///
/// * bit 63 — IVT (invalidate)
/// * bits 61:60 — IIRG (granularity)
/// * bit 49 — drain reads, bit 48 — drain writes
/// * bits 47:32 — DID
#[derive(Copy, Clone, Debug, Default, PartialEq, Eq, Structural)]
pub struct IotlbInval(pub u64);

/// IOTLB invalidation granularity (`IIRG`).
#[derive(Copy, Clone, Debug, PartialEq, Eq, Structural)]
pub enum Iirg {
    /// Reserved encoding (00b).
    Reserved,
    /// Global invalidation (01b).
    Global,
    /// Domain-selective invalidation (10b).
    Domain,
    /// Page-selective-within-domain (11b).
    Page,
}

/// The 2-bit encoding of an IOTLB invalidation granularity.
pub open spec fn iirg_bits(g: Iirg) -> u64 {
    match g {
        Iirg::Reserved => 0,
        Iirg::Global => 1,
        Iirg::Domain => 2,
        Iirg::Page => 3,
    }
}

/// The IOTLB invalidation granularity of a 2-bit code.
pub open spec fn iirg_of(v: u64) -> Iirg {
    if v == 1 {
        Iirg::Global
    } else if v == 2 {
        Iirg::Domain
    } else if v == 3 {
        Iirg::Page
    } else {
        Iirg::Reserved
    }
}

/// Where the IIRG code lands in the control word: bits 61:60 hold it and
/// nothing else of the word reaches them.
proof fn lemma_iirg_field(iirg: u64, dr: u64, dw: u64, did: u16)
    by (bit_vector)
    requires
        iirg <= 3,
        dr <= 1,
        dw <= 1,
    ensures
        ((iirg << 60) | (dr << 49) | (dw << 48) | ((did as u64) << 32)) & 0x3000_0000_0000_0000
            == iirg << 60,
        iirg == 0 ==> iirg << 60 == 0,
        iirg == 1 ==> iirg << 60 == 0x1000_0000_0000_0000,
        iirg == 2 ==> iirg << 60 == 0x2000_0000_0000_0000,
        iirg == 3 ==> iirg << 60 == 0x3000_0000_0000_0000,
{
}

/// Law: the granularity read from an IOTLB invalidation word is the one
/// its bits 61:60 encode: 01b global, 10b domain-selective, 11b
/// page-selective, 00b reserved.
pub proof fn lemma_iotlb_inval_granularity_codes(w: IotlbInval)
    ensures
        w.0 & 0x3000_0000_0000_0000 == 0x1000_0000_0000_0000 <==> w.granularity() == Iirg::Global,
        w.0 & 0x3000_0000_0000_0000 == 0x2000_0000_0000_0000 <==> w.granularity() == Iirg::Domain,
        w.0 & 0x3000_0000_0000_0000 == 0x3000_0000_0000_0000 <==> w.granularity() == Iirg::Page,
        w.0 & 0x3000_0000_0000_0000 == 0 <==> w.granularity() == Iirg::Reserved,
{
    let x = w.0;
    crate::bitfield::lemma_low_mask_values();
    assert(field(x, 60, 2) <= 3) by (bit_vector)
        requires
            crate::bitfield::low_mask(2) == 3,
    ;
    assert(x & 0x3000_0000_0000_0000 == field(x, 60, 2) << 60) by (bit_vector)
        requires
            crate::bitfield::low_mask(2) == 3,
    ;
    lemma_iirg_field(field(x, 60, 2), 0, 0, 0);
}

impl IotlbInval {
    /// Build the control word (the invalidate bit is left clear). Bits
    /// 61:60 hold 01b for a global, 10b for a domain-selective and 11b for
    /// a page-selective invalidation.
    pub fn new(granularity: Iirg, did: u16, drain_reads: bool, drain_writes: bool) -> (r: Self)
        ensures
            r == IotlbInval(iotlb_inval_word(iirg_bits(granularity), did, drain_reads, drain_writes)),
            r.granularity() == granularity,
            r.did() == did,
            !r.initiate(),
            granularity == Iirg::Reserved ==> r.0 & 0x3000_0000_0000_0000 == 0,
            granularity == Iirg::Global ==> r.0 & 0x3000_0000_0000_0000 == 0x1000_0000_0000_0000,
            granularity == Iirg::Domain ==> r.0 & 0x3000_0000_0000_0000 == 0x2000_0000_0000_0000,
            granularity == Iirg::Page ==> r.0 & 0x3000_0000_0000_0000 == 0x3000_0000_0000_0000,
    {
        proof {
            lemma_register_words(iirg_bits(granularity), did, 0, 0, 0, false, 0, false, drain_reads, drain_writes, 0);
        }
        let iirg: u64 = match granularity {
            Iirg::Reserved => 0,
            Iirg::Global => 1,
            Iirg::Domain => 2,
            Iirg::Page => 3,
        };
        let dr: u64 = if drain_reads {
            1
        } else {
            0
        };
        let dw: u64 = if drain_writes {
            1
        } else {
            0
        };
        proof {
            lemma_iirg_field(iirg, dr, dw, did);
        }
        IotlbInval((iirg << 60) | (dr << 49) | (dw << 48) | ((did as u64) << 32))
    }

    /// Initiate invalidation bit (63).
    #[verifier::allow_in_spec]
    pub fn initiate(&self) -> bool
        returns
            field(self.0, 63, 1) != 0,
    {
        extract_bits(self.0, 63, 63) != 0
    }

    /// Granularity (bits 61:60).
    #[verifier::allow_in_spec]
    pub fn granularity(&self) -> Iirg
        returns
            iirg_of(field(self.0, 60, 2)),
    {
        let g = extract_bits(self.0, 61, 60);
        if g == 1 {
            Iirg::Global
        } else if g == 2 {
            Iirg::Domain
        } else if g == 3 {
            Iirg::Page
        } else {
            Iirg::Reserved
        }
    }

    /// Domain id (bits 47:32).
    #[verifier::allow_in_spec]
    pub fn did(&self) -> u16
        returns
            field(self.0, 32, 16) as u16,
    {
        extract_bits(self.0, 47, 32) as u16
    }
}

/// Invalidation Address register word (`IVA_REG`, at `ECAP.IRO`).
///
/// * bits 63:12 — address
/// * bits 5:0 — address mask (AM)
#[derive(Copy, Clone, Debug, Default, PartialEq, Eq, Structural)]
pub struct Iva(pub u64);

impl Iva {
    /// Build an IVA word for `addr` (page aligned) with address mask `am`.
    pub fn new(addr: u64, am: u8) -> (r: Self)
        ensures
            r == Iva((addr & 0xffff_ffff_ffff_f000) | ((am as u64) & 0x3f)),
            r.addr() == addr & 0xffff_ffff_ffff_f000,
            r.am() == am % 64,
    {
        proof {
            lemma_register_words(0, 0, 0, 0, addr, false, 0, false, false, false, am);
            lemma_u8_low_bits(am);
        }
        Iva((addr & 0xffff_ffff_ffff_f000) | ((am as u64) & 0x3f))
    }

    /// Address (bits 63:12, in place).
    #[verifier::allow_in_spec]
    pub fn addr(&self) -> u64
        returns
            field(self.0, 12, 52) << 12,
    {
        extract_bits(self.0, 63, 12) << 12
    }

    /// Address mask (bits 5:0).
    #[verifier::allow_in_spec]
    pub fn am(&self) -> u8
        returns
            field(self.0, 0, 6) as u8,
    {
        extract_bits(self.0, 5, 0) as u8
    }
}

/// Fault Status Register (`FSTS`) bits. The fault record index (bits 12:8)
/// is read with [`fsts_fri`].
#[derive(Copy, Clone, Debug, Default, PartialEq, Eq, Structural)]
pub struct Fsts(pub u32);

impl Fsts {
    /// Primary fault overflow (PFO).
    pub const PFO: u32 = 1 << 0;
    /// Primary pending fault (PPF).
    pub const PPF: u32 = 1 << 1;
    /// Invalidation queue error (IQE).
    pub const IQE: u32 = 1 << 2;
    /// Interrupt remapping table error (ITE).
    pub const ITE: u32 = 1 << 3;
    /// Page request overflow (PRO).
    pub const PRO: u32 = 1 << 4;

    /// Raw register value.
    #[verifier::allow_in_spec]
    pub fn bits(&self) -> u32
        returns
            self.0,
    {
        self.0
    }

    /// `true` when every bit of `mask` is set.
    #[verifier::allow_in_spec]
    pub fn contains(&self, mask: u32) -> bool
        returns
            self.0 & mask == mask,
    {
        self.0 & mask == mask
    }
}

/// The Fault Record Index (FRI) of an `FSTS` value (bits 12:8).
pub fn fsts_fri(fsts: u32) -> (r: u8)
    ensures
        r == field(fsts as u64, 8, 5) as u8,
{
    extract_bits(fsts as u64, 12, 8) as u8
}

} // verus!
