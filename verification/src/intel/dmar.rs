//! ACPI DMA Remapping (DMAR) table parsing.
//!
//! The table header is followed by remapping structures, each with a type
//! (bytes 0..2) and a length (bytes 2..4):
//!
//! | Type | Structure                                          |
//! |------|----------------------------------------------------|
//! | 0    | [`Drhd`] — Hardware Unit Definition                |
//! | 1    | [`Rmrr`] — Reserved Memory Region Reporting        |
//! | 2    | [`Atsr`] — Root Port ATS Capability Reporting      |
//! | 3    | [`Rhsa`] — Remapping Hardware Static Affinity      |
//! | 4    | [`Andd`] — ACPI Name-space Device Declaration      |
//! | 5    | [`Satc`] — SoC Integrated ATC Reporting            |
//! | 6    | [`Sidp`] — SoC Integrated Device Property          |
//!
//! The parser walks the raw table bytes and yields borrowed views; it
//! allocates only for the lists that [`DmarTable::drhd_units`] and
//! [`DeviceScope::path_pairs`] hand back.
use vstd::prelude::*;
use vstd::string::StringExecFns;

use vstd::arithmetic::power2::pow2;
use vstd::bits::{lemma_u64_pow2_no_overflow, lemma_u64_shl_is_mul};

use crate::text::{digits, hex_list, push_decimal, push_hex_list};
use crate::bytes::{
    checksum_ok, le16_at, le32_at, le64_at, read_le16, read_le32, read_le64, wrapping_byte_sum,
};

verus! {

/// Error returned while interpreting a DMAR table.
#[derive(Debug, Clone, Copy, PartialEq, Eq)]
pub enum DmarError {
    /// Table shorter than the smallest valid DMAR (48 bytes).
    TooShort {
        /// Actual byte length.
        len: usize,
    },
    /// Signature is not `DMAR`.
    BadSignature([u8; 4]),
    /// Header length field is inconsistent with the buffer.
    BadLength {
        /// Length claimed by the header.
        claimed: usize,
        /// Bytes actually available.
        available: usize,
    },
    /// ACPI checksum (byte sum modulo 256) is not zero.
    BadChecksum,
}

/// The text that describes `e`.
pub open spec fn dmar_error_text(e: DmarError) -> Seq<char> {
    match e {
        DmarError::TooShort { len } => "DMAR table too short: "@ + digits(len as nat, 10) + " bytes"@,
        DmarError::BadSignature(sig) => "bad DMAR signature: "@ + hex_list(sig@),
        DmarError::BadLength { claimed, available } => "bad length: claimed "@ + digits(
            claimed as nat,
            10,
        ) + ", available "@ + digits(available as nat, 10),
        DmarError::BadChecksum => "checksum mismatch"@,
    }
}

impl DmarError {
    /// A human-readable description of the error.
    pub fn describe(&self) -> (r: String)
        ensures
            r@ == dmar_error_text(*self),
    {
        let mut s = String::new();
        match self {
            DmarError::TooShort { len } => {
                s.append("DMAR table too short: ");
                push_decimal(&mut s, *len as u64);
                s.append(" bytes");
            },
            DmarError::BadSignature(sig) => {
                s.append("bad DMAR signature: ");
                push_hex_list(&mut s, sig);
            },
            DmarError::BadLength { claimed, available } => {
                s.append("bad length: claimed ");
                push_decimal(&mut s, *claimed as u64);
                s.append(", available ");
                push_decimal(&mut s, *available as u64);
            },
            DmarError::BadChecksum => {
                s.append("checksum mismatch");
            },
        }
        s
    }
}

/// Offset of the first remapping structure (36-byte header + HAW + flags +
/// reserved[10]).
pub const STRUCTS_OFFSET: usize = 48;

/// The signature bytes `DMAR`.
pub open spec fn dmar_signature(raw: Seq<u8>) -> bool {
    raw[0] == 0x44 && raw[1] == 0x4d && raw[2] == 0x41 && raw[3] == 0x52
}

/// The table length claimed by the header (bytes 4..8).
pub open spec fn dmar_claimed_len(raw: Seq<u8>) -> int {
    le32_at(raw, 4) as int
}

/// A parsed view of the ACPI DMAR table.
#[derive(Debug, Clone, Copy)]
pub struct DmarTable<'a> {
    raw: &'a [u8],
}

impl<'a> DmarTable<'a> {
    #[verifier::type_invariant]
    closed spec fn inv(self) -> bool {
        self.raw@.len() >= STRUCTS_OFFSET
    }

    /// The table bytes (the header-claimed length of the buffer).
    pub closed spec fn bytes(&self) -> Seq<u8> {
        self.raw@
    }

    /// Validate `raw` as a DMAR table. The checks come in this order:
    /// minimum length, signature, claimed length, checksum; the first that
    /// fails gives the error. On success the view covers the claimed length.
    pub fn new(raw: &'a [u8]) -> (r: Result<Self, DmarError>)
        ensures
            raw@.len() < STRUCTS_OFFSET ==> r == Err::<Self, DmarError>(
                DmarError::TooShort { len: raw@.len() as usize },
            ),
            raw@.len() >= STRUCTS_OFFSET && !dmar_signature(raw@) ==> (r matches Err(
                DmarError::BadSignature(sig),
            ) && sig@ == raw@.subrange(0, 4)),
            raw@.len() >= STRUCTS_OFFSET && dmar_signature(raw@) && (dmar_claimed_len(raw@)
                < STRUCTS_OFFSET || dmar_claimed_len(raw@) > raw@.len()) ==> r == Err::<
                Self,
                DmarError,
            >(
                DmarError::BadLength {
                    claimed: dmar_claimed_len(raw@) as usize,
                    available: raw@.len() as usize,
                },
            ),
            raw@.len() >= STRUCTS_OFFSET && dmar_signature(raw@) && STRUCTS_OFFSET
                <= dmar_claimed_len(raw@) <= raw@.len() ==> (if checksum_ok(
                raw@.subrange(0, dmar_claimed_len(raw@)),
            ) {
                r matches Ok(t) && t.bytes() == raw@.subrange(0, dmar_claimed_len(raw@))
            } else {
                r == Err::<Self, DmarError>(DmarError::BadChecksum)
            }),
    {
        if raw.len() < STRUCTS_OFFSET {
            return Err(DmarError::TooShort { len: raw.len() });
        }
        if !(raw[0] == 0x44 && raw[1] == 0x4d && raw[2] == 0x41 && raw[3] == 0x52) {
            let sig = [raw[0], raw[1], raw[2], raw[3]];
            proof {
                assert(sig@ == raw@.subrange(0, 4));
            }
            return Err(DmarError::BadSignature(sig));
        }
        let total = read_le32(raw, 4) as usize;
        if total < STRUCTS_OFFSET || total > raw.len() {
            return Err(DmarError::BadLength { claimed: total, available: raw.len() });
        }
        let table = &raw[0..total];
        if wrapping_byte_sum(table) != 0 {
            return Err(DmarError::BadChecksum);
        }
        Ok(DmarTable { raw: table })
    }

    /// Signature bytes (`DMAR`).
    pub fn signature(&self) -> (r: [u8; 4])
        ensures
            r@ == self.bytes().subrange(0, 4),
    {
        proof {
            use_type_invariant(self);
        }
        let r = [self.raw[0], self.raw[1], self.raw[2], self.raw[3]];
        proof {
            assert(r@ == self.bytes().subrange(0, 4));
        }
        r
    }

    /// Table revision (byte 8, usually 1).
    pub fn revision(&self) -> (r: u8)
        ensures
            r == self.bytes()[8],
    {
        proof {
            use_type_invariant(self);
        }
        self.raw[8]
    }

    /// OEM id as bytes (bytes 10..16: six characters, space padded).
    pub fn oem_id(&self) -> (r: [u8; 6])
        ensures
            r@ == self.bytes().subrange(10, 16),
    {
        proof {
            use_type_invariant(self);
        }
        let r = [self.raw[10], self.raw[11], self.raw[12], self.raw[13], self.raw[14], self.raw[15]];
        proof {
            assert(r@ == self.bytes().subrange(10, 16));
        }
        r
    }

    /// Host Address Width: the platform HAW is the value of byte 36 plus
    /// one bits. A byte of 255 has no width that fits the result.
    pub fn host_address_width(&self) -> (r: u8)
        requires
            self.bytes()[36] < 255,
        ensures
            r == self.bytes()[36] + 1,
    {
        proof {
            use_type_invariant(self);
        }
        self.raw[36] + 1
    }

    /// Raw DMAR flags byte (byte 37; bit 0: INTR_REMAP, bit 1:
    /// X2APIC_OPT_OUT, bit 3: DMA_REMAP_OPT_OUT).
    pub fn flags_raw(&self) -> (r: u8)
        ensures
            r == self.bytes()[37],
    {
        proof {
            use_type_invariant(self);
        }
        self.raw[37]
    }

    /// Interrupt remapping required (flags bit 0).
    pub fn intr_remap_required(&self) -> (r: bool)
        ensures
            r == (self.bytes()[37] & 1 != 0),
    {
        self.flags_raw() & 0b1 != 0
    }

    /// x2APIC opt-out requested (flags bit 1).
    pub fn x2apic_opt_out(&self) -> (r: bool)
        ensures
            r == (self.bytes()[37] & 2 != 0),
    {
        self.flags_raw() & 0b10 != 0
    }
}


/// The length of the next remapping structure of `bytes`, when a whole
/// structure is there: at least four bytes, and a length field (bytes
/// 2..4) of at least four that does not overrun `bytes`.
pub open spec fn next_struct_len(bytes: Seq<u8>) -> Option<int> {
    if bytes.len() < 4 {
        None
    } else {
        let len = le16_at(bytes, 2) as int;
        if len < 4 || len > bytes.len() {
            None
        } else {
            Some(len)
        }
    }
}

/// The DRHD structures (type 0) among the structures of `bytes`, in order.
pub open spec fn drhd_structs(bytes: Seq<u8>) -> Seq<Seq<u8>>
    decreases bytes.len(),
{
    match next_struct_len(bytes) {
        None => Seq::empty(),
        Some(len) => {
            let rest = bytes.subrange(len, bytes.len() as int);
            if bytes[0] == 0 {
                seq![bytes.subrange(0, len)] + drhd_structs(rest)
            } else {
                drhd_structs(rest)
            }
        },
    }
}

/// `a` is a run of whole structures: each length field is at least the
/// header and fits in what is left.
pub open spec fn whole_structs(a: Seq<u8>) -> bool
    decreases a.len(),
{
    if a.len() == 0 {
        true
    } else {
        match next_struct_len(a) {
            None => false,
            Some(len) => whole_structs(a.subrange(len, a.len() as int)),
        }
    }
}

/// A whole structure at the front of `a` is read the same with bytes after it.
proof fn lemma_next_struct_len_prefix(a: Seq<u8>, b: Seq<u8>)
    requires
        next_struct_len(a) is Some,
    ensures
        next_struct_len(a + b) == next_struct_len(a),
        (a + b)[0] == a[0],
        (next_struct_len(a) matches Some(len) && (a + b).subrange(len, (a + b).len() as int) =~= a.subrange(
            len,
            a.len() as int,
        ) + b),
{
    assert((a + b)[0] == a[0]);
    assert((a + b)[1] == a[1]);
    assert((a + b)[2] == a[2]);
    assert((a + b)[3] == a[3]);
}

/// Law: the DRHD structures of a run of whole structures followed by any bytes are the
/// DRHD structures of the run followed by the DRHD structures of the rest: no structure is
/// skipped or cut short at a boundary.
pub proof fn lemma_drhd_structs_concat(a: Seq<u8>, b: Seq<u8>)
    requires
        whole_structs(a),
    ensures
        drhd_structs(a + b) == drhd_structs(a) + drhd_structs(b),
    decreases a.len(),
{
    if a.len() == 0 {
        assert(a + b =~= b);
        assert(drhd_structs(a) =~= Seq::<Seq<u8>>::empty());
    } else {
        let len = next_struct_len(a)->0;
        lemma_next_struct_len_prefix(a, b);
        let ra = a.subrange(len, a.len() as int);
        lemma_drhd_structs_concat(ra, b);
        assert((a + b).subrange(0, len) =~= a.subrange(0, len));
        assert((drhd_structs(a) + drhd_structs(b)) =~= drhd_structs(a + b));
    }
}

/// One remapping structure, borrowed from the table.
#[derive(Debug)]
pub enum RemapStruct<'a> {
    /// DMA Remapping Hardware Unit Definition (type 0).
    Drhd(Drhd<'a>),
    /// Reserved Memory Region Reporting (type 1).
    Rmrr(Rmrr<'a>),
    /// Root Port ATS Capability Reporting (type 2).
    Atsr(Atsr<'a>),
    /// Remapping Hardware Static Affinity (type 3).
    Rhsa(Rhsa<'a>),
    /// ACPI Name-space Device Declaration (type 4).
    Andd(Andd<'a>),
    /// SoC Integrated Address Translation Cache (type 5).
    Satc(Satc<'a>),
    /// SoC Integrated Device Property (type 6).
    Sidp(Sidp<'a>),
    /// A structure type this crate does not model (`ty > 6`).
    Unknown {
        /// Structure type code.
        ty: u8,
        /// Full raw bytes of the structure (header included).
        raw: &'a [u8],
    },
}

/// `s` is the remapping structure whose bytes are `raw`: the variant is
/// the one named by the type byte, and it holds exactly `raw`.
pub open spec fn struct_is(s: RemapStruct, raw: Seq<u8>) -> bool {
    match s {
        RemapStruct::Drhd(d) => raw[0] == 0 && d.bytes() == raw,
        RemapStruct::Rmrr(d) => raw[0] == 1 && d.bytes() == raw,
        RemapStruct::Atsr(d) => raw[0] == 2 && d.bytes() == raw,
        RemapStruct::Rhsa(d) => raw[0] == 3 && d.bytes() == raw,
        RemapStruct::Andd(d) => raw[0] == 4 && d.bytes() == raw,
        RemapStruct::Satc(d) => raw[0] == 5 && d.bytes() == raw,
        RemapStruct::Sidp(d) => raw[0] == 6 && d.bytes() == raw,
        RemapStruct::Unknown { ty, raw: r } => raw[0] > 6 && ty == raw[0] && r@ == raw,
    }
}

/// The 16-bit length field (bytes 2..4) of the structure at the start of
/// `bytes`, when the structure header is there.
fn peek_len(bytes: &[u8]) -> (r: Option<usize>)
    ensures
        r == if bytes@.len() < 4 {
            None::<usize>
        } else {
            Some(le16_at(bytes@, 2) as usize)
        },
{
    if bytes.len() < 4 {
        None
    } else {
        Some(read_le16(bytes, 2) as usize)
    }
}

/// Iterator over remapping structures.
///
/// A structure whose length overruns the remaining bytes ends the
/// iteration: structure boundaries are length-defined and cannot be
/// re-synchronised.
#[derive(Debug, Clone)]
pub struct StructIter<'a> {
    bytes: &'a [u8],
}

impl<'a> StructIter<'a> {
    /// The bytes not consumed yet.
    pub closed spec fn rest(&self) -> Seq<u8> {
        self.bytes@
    }

    /// The next remapping structure. Without a whole structure ahead the
    /// iterator yields `None` and stays where it is.
    pub fn next(&mut self) -> (r: Option<RemapStruct<'a>>)
        ensures
            match next_struct_len(old(self).rest()) {
                None => r is None && final(self).rest() == old(self).rest(),
                Some(len) => {
                    &&& r matches Some(s) && struct_is(s, old(self).rest().subrange(0, len))
                    &&& final(self).rest() == old(self).rest().subrange(
                        len,
                        old(self).rest().len() as int,
                    )
                },
            },
    {
        let len = match peek_len(self.bytes) {
            Some(len) => len,
            None => return None,
        };
        if len < 4 || len > self.bytes.len() {
            return None;
        }
        let ty = self.bytes[0];
        let raw = &self.bytes[0..len];
        self.bytes = &self.bytes[len..self.bytes.len()];
        match ty {
            0 => Some(RemapStruct::Drhd(Drhd { raw })),
            1 => Some(RemapStruct::Rmrr(Rmrr { raw })),
            2 => Some(RemapStruct::Atsr(Atsr { raw })),
            3 => Some(RemapStruct::Rhsa(Rhsa { raw })),
            4 => Some(RemapStruct::Andd(Andd { raw })),
            5 => Some(RemapStruct::Satc(Satc { raw })),
            6 => Some(RemapStruct::Sidp(Sidp { raw })),
            _ => Some(RemapStruct::Unknown { ty, raw }),
        }
    }

    /// The next DRHD structure. Allocation-free: the
    /// structures of other kinds are skipped; `None` once none is left.
    pub fn next_drhd(&mut self) -> (r: Option<Drhd<'a>>)
        ensures
            drhd_structs(old(self).rest()).len() == 0 ==> r is None,
            drhd_structs(old(self).rest()).len() > 0 ==> {
                &&& r matches Some(x) && x.bytes() == drhd_structs(old(self).rest())[0]
                &&& drhd_structs(final(self).rest()) == drhd_structs(old(self).rest()).drop_first()
            },
    {
        let ghost start = self.rest();
        loop
            invariant
                start == old(self).rest(),
                drhd_structs(self.rest()) == drhd_structs(start),
            decreases self.rest().len(),
        {
            let ghost before = self.rest();
            match self.next() {
                None => {
                    return None;
                },
                Some(RemapStruct::Drhd(x)) => {
                    proof {
                        assert(seq![x.bytes()] + drhd_structs(self.rest()) == drhd_structs(before));
                        assert((drhd_structs(start)).drop_first() =~= drhd_structs(self.rest()));
                    }
                    return Some(x);
                },
                Some(_) => {},
            }
        }
    }

}

impl<'a> DmarTable<'a> {
    /// The bytes of the remapping structures: the table past the header.
    pub open spec fn struct_bytes(&self) -> Seq<u8> {
        self.bytes().subrange(STRUCTS_OFFSET as int, self.bytes().len() as int)
    }

    /// Iterate over the remapping structures in declaration order.
    /// Structures with unknown types come out as [`RemapStruct::Unknown`].
    pub fn structs(&self) -> (r: StructIter<'a>)
        ensures
            r.rest() == self.struct_bytes(),
    {
        proof {
            use_type_invariant(self);
        }
        StructIter { bytes: &self.raw[STRUCTS_OFFSET..self.raw.len()] }
    }

    /// All DRHD units, in table order.
    pub fn drhd_units(&self) -> (r: Vec<Drhd<'a>>)
        ensures
            r@.map_values(|d: Drhd<'a>| d.bytes()) == drhd_structs(self.struct_bytes()),
    {
        let mut it = self.structs();
        let ghost all = it.rest();
        let mut out: Vec<Drhd<'a>> = Vec::new();
        loop
            invariant
                out@.map_values(|d: Drhd<'a>| d.bytes()) + drhd_structs(it.rest())
                    == drhd_structs(all),
                all == self.struct_bytes(),
            decreases it.rest().len(),
        {
            let ghost before = it.rest();
            match it.next() {
                None => {
                    proof {
                        assert(out@.map_values(|d: Drhd<'a>| d.bytes()) + drhd_structs(it.rest())
                            == out@.map_values(|d: Drhd<'a>| d.bytes()));
                    }
                    return out;
                },
                Some(RemapStruct::Drhd(d)) => {
                    let ghost old_out = out@;
                    out.push(d);
                    proof {
                        assert(out@.map_values(|d: Drhd<'a>| d.bytes()) == old_out.map_values(
                            |d: Drhd<'a>| d.bytes(),
                        ).push(d.bytes()));
                        assert(seq![d.bytes()] + drhd_structs(it.rest()) == drhd_structs(before));
                        assert(old_out.map_values(|d: Drhd<'a>| d.bytes()).push(d.bytes())
                            + drhd_structs(it.rest()) == old_out.map_values(|d: Drhd<'a>| d.bytes())
                            + (seq![d.bytes()] + drhd_structs(it.rest())));
                    }
                },
                Some(_) => {},
            }
        }
    }
}

/// Little-endian `u16` at `off` of `b`, or 0 when it does not fit.
pub open spec fn le16_or_zero(b: Seq<u8>, off: int) -> u16 {
    if off + 2 <= b.len() {
        le16_at(b, off)
    } else {
        0
    }
}

/// Little-endian `u32` at `off` of `b`, or 0 when it does not fit.
pub open spec fn le32_or_zero(b: Seq<u8>, off: int) -> u32 {
    if off + 4 <= b.len() {
        le32_at(b, off)
    } else {
        0
    }
}

/// Little-endian `u64` at `off` of `b`, or 0 when it does not fit.
pub open spec fn le64_or_zero(b: Seq<u8>, off: int) -> u64 {
    if off + 8 <= b.len() {
        le64_at(b, off)
    } else {
        0
    }
}

/// Byte `off` of `b`, or 0 when `b` is shorter.
pub open spec fn byte_or_zero(b: Seq<u8>, off: int) -> u8 {
    if off < b.len() {
        b[off]
    } else {
        0
    }
}

/// The part of `b` from `off` on, or nothing when `b` is shorter.
pub open spec fn tail_from(b: Seq<u8>, off: int) -> Seq<u8> {
    if off <= b.len() {
        b.subrange(off, b.len() as int)
    } else {
        Seq::empty()
    }
}

fn le16(raw: &[u8], off: usize) -> (r: u16)
    requires
        off < 64,
    ensures
        r == le16_or_zero(raw@, off as int),
{
    if off + 2 <= raw.len() {
        read_le16(raw, off)
    } else {
        0
    }
}

fn le32(raw: &[u8], off: usize) -> (r: u32)
    requires
        off < 64,
    ensures
        r == le32_or_zero(raw@, off as int),
{
    if off + 4 <= raw.len() {
        read_le32(raw, off)
    } else {
        0
    }
}

fn le64(raw: &[u8], off: usize) -> (r: u64)
    requires
        off < 64,
    ensures
        r == le64_or_zero(raw@, off as int),
{
    if off + 8 <= raw.len() {
        read_le64(raw, off)
    } else {
        0
    }
}

fn byte_at(raw: &[u8], off: usize) -> (r: u8)
    ensures
        r == byte_or_zero(raw@, off as int),
{
    if off < raw.len() {
        raw[off]
    } else {
        0
    }
}

fn tail<'b>(raw: &'b [u8], off: usize) -> (r: &'b [u8])
    ensures
        r@ == tail_from(raw@, off as int),
{
    let n = raw.len();
    if off <= n {
        &raw[off..n]
    } else {
        &raw[n..n]
    }
}

/// DMA Remapping Hardware Unit Definition (type 0).
#[derive(Debug, Clone, Copy)]
pub struct Drhd<'a> {
    raw: &'a [u8],
}

impl<'a> Drhd<'a> {
    /// The structure bytes, header included.
    pub closed spec fn bytes(&self) -> Seq<u8> {
        self.raw@
    }

    /// Full raw bytes of the structure (header included).
    pub fn raw(&self) -> (r: &'a [u8])
        ensures
            r@ == self.bytes(),
    {
        self.raw
    }

    /// Device scope entries trailing the fixed part (bytes 16 on).
    pub fn scopes(&self) -> (r: DeviceScopeIter<'a>)
        ensures
            r.rest() == tail_from(self.bytes(), 16),
    {
        DeviceScopeIter { bytes: tail(self.raw, 16) }
    }

    /// `INCLUDE_PCI_ALL` flag (bit 0 of the flags byte 4).
    pub fn include_pci_all(&self) -> (r: bool)
        ensures
            r == (byte_or_zero(self.bytes(), 4) & 1 != 0),
    {
        byte_at(self.raw, 4) & 1 != 0
    }

    /// Register-set size order `N` (low nibble of byte 5): the MMIO area
    /// occupies `2^(N+12)` bytes.
    pub fn register_size_order(&self) -> (r: u8)
        ensures
            r == byte_or_zero(self.bytes(), 5) & 0x0f,
    {
        byte_at(self.raw, 5) & 0x0f
    }

    /// PCI segment number (bytes 6..8, or 0 when absent).
    pub fn segment(&self) -> (r: u16)
        ensures
            r == le16_or_zero(self.bytes(), 6),
    {
        le16(self.raw, 6)
    }

    /// Base physical address of the remapping hardware register set
    /// (bytes 8..16, or 0 when absent).
    pub fn register_base(&self) -> (r: u64)
        ensures
            r == le64_or_zero(self.bytes(), 8),
    {
        le64(self.raw, 8)
    }
}

/// Reserved Memory Region Reporting structure (type 1).
#[derive(Debug, Clone, Copy)]
pub struct Rmrr<'a> {
    raw: &'a [u8],
}

impl<'a> Rmrr<'a> {
    /// The structure bytes, header included.
    pub closed spec fn bytes(&self) -> Seq<u8> {
        self.raw@
    }

    /// Full raw bytes of the structure (header included).
    pub fn raw(&self) -> (r: &'a [u8])
        ensures
            r@ == self.bytes(),
    {
        self.raw
    }

    /// Device scope entries trailing the fixed part (bytes 24 on).
    pub fn scopes(&self) -> (r: DeviceScopeIter<'a>)
        ensures
            r.rest() == tail_from(self.bytes(), 24),
    {
        DeviceScopeIter { bytes: tail(self.raw, 24) }
    }

    /// PCI segment number (bytes 6..8, or 0 when absent).
    pub fn segment(&self) -> (r: u16)
        ensures
            r == le16_or_zero(self.bytes(), 6),
    {
        le16(self.raw, 6)
    }

    /// Inclusive base physical address of the reserved region (bytes
    /// 8..16, or 0 when absent).
    pub fn base(&self) -> (r: u64)
        ensures
            r == le64_or_zero(self.bytes(), 8),
    {
        le64(self.raw, 8)
    }

    /// Inclusive limit (last byte) physical address of the region (bytes
    /// 16..24, or 0 when absent).
    pub fn limit(&self) -> (r: u64)
        ensures
            r == le64_or_zero(self.bytes(), 16),
    {
        le64(self.raw, 16)
    }
}

/// Root Port ATS Capability Reporting structure (type 2).
#[derive(Debug, Clone, Copy)]
pub struct Atsr<'a> {
    raw: &'a [u8],
}

impl<'a> Atsr<'a> {
    /// The structure bytes, header included.
    pub closed spec fn bytes(&self) -> Seq<u8> {
        self.raw@
    }

    /// Full raw bytes of the structure (header included).
    pub fn raw(&self) -> (r: &'a [u8])
        ensures
            r@ == self.bytes(),
    {
        self.raw
    }

    /// Device scope entries trailing the fixed part (bytes 8 on).
    pub fn scopes(&self) -> (r: DeviceScopeIter<'a>)
        ensures
            r.rest() == tail_from(self.bytes(), 8),
    {
        DeviceScopeIter { bytes: tail(self.raw, 8) }
    }

    /// `ALL_PORTS` flag (bit 0 of byte 4): all ports below a single root port.
    pub fn all_ports(&self) -> (r: bool)
        ensures
            r == (byte_or_zero(self.bytes(), 4) & 1 != 0),
    {
        byte_at(self.raw, 4) & 1 != 0
    }

    /// PCI segment number (bytes 6..8, or 0 when absent).
    pub fn segment(&self) -> (r: u16)
        ensures
            r == le16_or_zero(self.bytes(), 6),
    {
        le16(self.raw, 6)
    }
}

/// SoC Integrated Address Translation Cache structure (type 5).
#[derive(Debug, Clone, Copy)]
pub struct Satc<'a> {
    raw: &'a [u8],
}

impl<'a> Satc<'a> {
    /// The structure bytes, header included.
    pub closed spec fn bytes(&self) -> Seq<u8> {
        self.raw@
    }

    /// Full raw bytes of the structure (header included).
    pub fn raw(&self) -> (r: &'a [u8])
        ensures
            r@ == self.bytes(),
    {
        self.raw
    }

    /// Device scope entries trailing the fixed part (bytes 8 on).
    pub fn scopes(&self) -> (r: DeviceScopeIter<'a>)
        ensures
            r.rest() == tail_from(self.bytes(), 8),
    {
        DeviceScopeIter { bytes: tail(self.raw, 8) }
    }

    /// `ATC_REQUIRED` flag (bit 0 of byte 4).
    pub fn atc_required(&self) -> (r: bool)
        ensures
            r == (byte_or_zero(self.bytes(), 4) & 1 != 0),
    {
        byte_at(self.raw, 4) & 1 != 0
    }

    /// PCI segment number (bytes 6..8, or 0 when absent).
    pub fn segment(&self) -> (r: u16)
        ensures
            r == le16_or_zero(self.bytes(), 6),
    {
        le16(self.raw, 6)
    }
}

/// SoC Integrated Device Property structure (type 6).
#[derive(Debug, Clone, Copy)]
pub struct Sidp<'a> {
    raw: &'a [u8],
}

impl<'a> Sidp<'a> {
    /// The structure bytes, header included.
    pub closed spec fn bytes(&self) -> Seq<u8> {
        self.raw@
    }

    /// Full raw bytes of the structure (header included).
    pub fn raw(&self) -> (r: &'a [u8])
        ensures
            r@ == self.bytes(),
    {
        self.raw
    }

    /// Device scope entries trailing the fixed part (bytes 8 on).
    pub fn scopes(&self) -> (r: DeviceScopeIter<'a>)
        ensures
            r.rest() == tail_from(self.bytes(), 8),
    {
        DeviceScopeIter { bytes: tail(self.raw, 8) }
    }

    /// PCI segment number (bytes 6..8, or 0 when absent).
    pub fn segment(&self) -> (r: u16)
        ensures
            r == le16_or_zero(self.bytes(), 6),
    {
        le16(self.raw, 6)
    }
}

impl<'a> Drhd<'a> {
    /// Size of the register set in bytes (`2^(N+12)`).
    pub fn register_size(&self) -> (r: u64)
        ensures
            r as nat == pow2((12 + (byte_or_zero(self.bytes(), 5) & 0x0f)) as nat),
    {
        let order = self.register_size_order();
        let shift: u64 = 12 + order as u64;
        proof {
            let b = byte_or_zero(self.bytes(), 5);
            assert(b & 0x0f <= 15) by (bit_vector);
            lemma_u64_pow2_no_overflow(shift as nat);
            lemma_u64_shl_is_mul(1, shift);
        }
        1u64 << shift
    }
}

/// Remapping Hardware Static Affinity structure (type 3).
///
/// Fixed 20-byte structure: header (4) + reserved (4) + segment (4) +
/// base address (8) + proximity domain (4).
#[derive(Debug, Clone, Copy)]
pub struct Rhsa<'a> {
    raw: &'a [u8],
}

impl<'a> Rhsa<'a> {
    /// The structure bytes, header included.
    pub closed spec fn bytes(&self) -> Seq<u8> {
        self.raw@
    }

    /// PCI segment number (bytes 8..12, or 0 when absent).
    pub fn segment(&self) -> (r: u32)
        ensures
            r == le32_or_zero(self.bytes(), 8),
    {
        le32(self.raw, 8)
    }

    /// Base physical address of the remapping unit (bytes 12..20, or 0 when
    /// absent).
    pub fn base(&self) -> (r: u64)
        ensures
            r == le64_or_zero(self.bytes(), 12),
    {
        le64(self.raw, 12)
    }

    /// Proximity domain this unit is closest to (bytes 20..24, or 0 when
    /// absent).
    pub fn proximity_domain(&self) -> (r: u32)
        ensures
            r == le32_or_zero(self.bytes(), 20),
    {
        le32(self.raw, 20)
    }
}

/// ACPI Name-space Device Declaration structure (type 4).
///
/// Layout: header (4) + reserved[3] (4..7) + ACPI device number (1) +
/// PCI segment (2) + ACPI object name (variable, NUL-terminated).
#[derive(Debug, Clone, Copy)]
pub struct Andd<'a> {
    raw: &'a [u8],
}

/// `name` is the NUL-terminated string at the start of `body`: the bytes
/// before the first zero byte, or all of `body` when it holds none.
pub open spec fn is_c_string_of(name: Seq<u8>, body: Seq<u8>) -> bool {
    &&& name.len() <= body.len()
    &&& name == body.subrange(0, name.len() as int)
    &&& forall|i: int| 0 <= i < name.len() ==> #[trigger] name[i] != 0
    &&& name.len() == body.len() || body[name.len() as int] == 0
}

impl<'a> Andd<'a> {
    /// The structure bytes, header included.
    pub closed spec fn bytes(&self) -> Seq<u8> {
        self.raw@
    }

    /// ACPI device number (byte 7, or 0 when absent), shared with a
    /// device-scope entry of type `05h` that refers to this declaration.
    pub fn acpi_device_number(&self) -> (r: u8)
        ensures
            r == byte_or_zero(self.bytes(), 7),
    {
        byte_at(self.raw, 7)
    }

    /// PCI segment number (bytes 8..10, or 0 when absent).
    pub fn segment(&self) -> (r: u16)
        ensures
            r == le16_or_zero(self.bytes(), 8),
    {
        le16(self.raw, 8)
    }

    /// ACPI namespace object name (bytes 10 on, without the trailing NUL).
    pub fn object_name(&self) -> (r: &'a [u8])
        ensures
            is_c_string_of(r@, tail_from(self.bytes(), 10)),
    {
        let body = tail(self.raw, 10);
        let mut end: usize = 0;
        while end < body.len() && body[end] != 0
            invariant
                end <= body@.len(),
                forall|i: int| 0 <= i < end ==> #[trigger] body@[i] != 0,
            decreases body@.len() - end,
        {
            end += 1;
        }
        let r = &body[0..end];
        proof {
            assert(r@ == body@.subrange(0, end as int));
        }
        r
    }
}

/// Device scope entry types.
#[derive(Debug, Clone, Copy, PartialEq, Eq, PartialOrd, Ord, Structural)]
pub enum ScopeType {
    /// `0x01` — PCI endpoint device.
    PciEndpoint,
    /// `0x02` — PCI sub-hierarchy (bridge + all downstream devices).
    PciSubhierarchy,
    /// `0x03` — I/O APIC (I/O SAPIC).
    Ioapic,
    /// `0x04` — MSI-capable HPET timer block.
    MsiCapableHpet,
    /// `0x05` — ACPI name-space enumerated device.
    AcpiNamespaceDevice,
    /// Any other value (reserved for future use).
    Reserved(u8),
}

/// The scope type named by a type byte.
pub open spec fn scope_type_of(v: u8) -> ScopeType {
    match v {
        1 => ScopeType::PciEndpoint,
        2 => ScopeType::PciSubhierarchy,
        3 => ScopeType::Ioapic,
        4 => ScopeType::MsiCapableHpet,
        5 => ScopeType::AcpiNamespaceDevice,
        _ => ScopeType::Reserved(v),
    }
}

impl From<u8> for ScopeType {
    fn from(v: u8) -> (r: Self)
        ensures
            r == scope_type_of(v),
    {
        match v {
            0x01 => ScopeType::PciEndpoint,
            0x02 => ScopeType::PciSubhierarchy,
            0x03 => ScopeType::Ioapic,
            0x04 => ScopeType::MsiCapableHpet,
            0x05 => ScopeType::AcpiNamespaceDevice,
            other => ScopeType::Reserved(other),
        }
    }
}

impl vstd::std_specs::convert::FromSpecImpl<u8> for ScopeType {
    open spec fn obeys_from_spec() -> bool {
        true
    }

    open spec fn from_spec(v: u8) -> ScopeType {
        scope_type_of(v)
    }
}

/// One device scope entry.
///
/// Byte layout: type (1) + length (1) + flags (2) + enumeration id (1) +
/// start bus (1) + path (variable, `{device, function}` byte pairs).
#[derive(Debug, Clone, Copy, PartialEq, Eq)]
pub struct DeviceScope<'a> {
    /// Entry type.
    pub ty: ScopeType,
    /// PCI bus number the path starts from.
    pub bus: u8,
    /// Enumeration id (for HPET / ACPI-namespace devices).
    pub enumeration_id: u8,
    /// Raw scope flags (meaningful inside SIDP structures).
    pub flags: u16,
    /// PCI path as `{device, function}` byte pairs from `bus`.
    pub path: &'a [u8],
}

/// The source id `(bus << 8) | (dev << 3) | (fn & 7)`.
pub open spec fn source_id_of(bus: u8, dev: u8, func: u8) -> u16 {
    ((bus as u16) << 8u16) | ((dev as u16) << 3u16) | ((func & 7) as u16)
}

impl<'a> DeviceScope<'a> {
    /// First-level PCI source identifier `(bus << 8) | (dev << 3) | fn`,
    /// taken from the first `{device, function}` pair of the path; `None`
    /// when the path holds no whole pair.
    ///
    /// This is the source-id for endpoint entries whose path holds exactly
    /// one pair. Entries with a deeper path (bridge sub-hierarchies) need a
    /// walk of PCI configuration space to find the final secondary bus: the
    /// caller makes that walk and advances through [`Self::path`] pair by
    /// pair.
    pub fn first_source_id(&self) -> (r: Option<u16>)
        ensures
            r == if self.path@.len() >= 2 {
                Some(source_id_of(self.bus, self.path@[0], self.path@[1]))
            } else {
                None::<u16>
            },
    {
        if self.path.len() < 2 {
            return None;
        }
        let dev = self.path[0];
        let func = self.path[1];
        Some(((self.bus as u16) << 8u16) | ((dev as u16) << 3u16) | ((func & 0x07) as u16))
    }

    /// The `{device, function}` pairs of the path, in order; an odd last
    /// byte is left out.
    pub fn path_pairs(&self) -> (r: Vec<(u8, u8)>)
        ensures
            r@.len() == self.path@.len() / 2,
            forall|i: int|
                0 <= i < r@.len() ==> #[trigger] r@[i] == (self.path@[2 * i], self.path@[2 * i
                    + 1]),
    {
        let plen = self.path.len();
        let n = plen / 2;
        let mut out: Vec<(u8, u8)> = Vec::new();
        let mut k: usize = 0;
        while k < n
            invariant
                plen == self.path@.len(),
                n == plen / 2,
                k <= n,
                out@.len() == k,
                forall|i: int|
                    0 <= i < k ==> #[trigger] out@[i] == (self.path@[2 * i], self.path@[2 * i
                        + 1]),
            decreases n - k,
        {
            out.push((self.path[2 * k], self.path[2 * k + 1]));
            k += 1;
        }
        out
    }
}

/// The length of the next device scope entry of `bytes`, when a whole
/// entry is there: at least six bytes, and a length byte (byte 1) of at
/// least six that does not overrun `bytes`.
pub open spec fn next_scope_len(bytes: Seq<u8>) -> Option<int> {
    if bytes.len() < 6 {
        None
    } else {
        let len = bytes[1] as int;
        if len < 6 || len > bytes.len() {
            None
        } else {
            Some(len)
        }
    }
}

/// `d` is the device scope entry whose bytes are `raw`.
pub open spec fn scope_is(d: DeviceScope, raw: Seq<u8>) -> bool {
    &&& d.ty == scope_type_of(raw[0])
    &&& d.flags == le16_at(raw, 2)
    &&& d.enumeration_id == raw[4]
    &&& d.bus == raw[5]
    &&& d.path@ == raw.subrange(6, raw.len() as int)
}

/// Iterator over the device scope entries of a scope list.
#[derive(Debug, Clone)]
pub struct DeviceScopeIter<'a> {
    bytes: &'a [u8],
}

impl<'a> DeviceScopeIter<'a> {
    /// The bytes not consumed yet.
    pub closed spec fn rest(&self) -> Seq<u8> {
        self.bytes@
    }

    /// The next device scope entry. Without a whole entry ahead the
    /// iterator yields `None` and stays where it is.
    pub fn next(&mut self) -> (r: Option<DeviceScope<'a>>)
        ensures
            match next_scope_len(old(self).rest()) {
                None => r is None && final(self).rest() == old(self).rest(),
                Some(len) => {
                    &&& r matches Some(d) && scope_is(d, old(self).rest().subrange(0, len))
                    &&& final(self).rest() == old(self).rest().subrange(
                        len,
                        old(self).rest().len() as int,
                    )
                },
            },
    {
        if self.bytes.len() < 6 {
            return None;
        }
        let ty = self.bytes[0];
        let len = self.bytes[1] as usize;
        if len < 6 || len > self.bytes.len() {
            return None;
        }
        let raw = &self.bytes[0..len];
        self.bytes = &self.bytes[len..self.bytes.len()];
        Some(
            DeviceScope {
                ty: ScopeType::from(ty),
                enumeration_id: raw[4],
                bus: raw[5],
                flags: read_le16(raw, 2),
                path: &raw[6..len],
            },
        )
    }
}
} // verus!
