//! ACPI IVRS (I/O Virtualization Reporting Structure).
//!
//! The IVRS table contains:
//!
//! * one or more **IVHD** (I/O Virtualization Hardware Definition) blocks
//!   describing each IOMMU: type `10h` (legacy), `11h` (v2 features) and
//!   `40h` (v3);
//! * zero or more **IVMD** (I/O Virtualization Memory Definition) blocks
//!   (type `20h`).
//!
//! Device entries inside an IVHD are 4-byte (ALL/SELECT), 8-byte
//! (ALIAS) or variable-length (`40h`/`41h`/`42h` special devices, `48h`
//! ACPI HID).
use vstd::prelude::*;
use vstd::string::StringExecFns;

use crate::text::{digits, hex_list, push_decimal, push_hex_list};
use crate::bytes::{
    checksum_ok, le16_at, le32_at, le64_at, read_le16, read_le32, read_le64, wrapping_byte_sum,
};

verus! {

/// Error returned while interpreting an IVRS table.
#[derive(Debug, Clone, Copy, PartialEq, Eq)]
pub enum IvrsError {
    /// Table shorter than 48 bytes.
    TooShort {
        /// Actual length.
        len: usize,
    },
    /// Signature is not `IVRS`.
    BadSignature([u8; 4]),
    /// Header length inconsistent with the buffer.
    BadLength {
        /// Claimed length.
        claimed: usize,
        /// Available bytes.
        available: usize,
    },
    /// ACPI checksum mismatch.
    BadChecksum,
}

/// The text that describes `e`.
pub open spec fn ivrs_error_text(e: IvrsError) -> Seq<char> {
    match e {
        IvrsError::TooShort { len } => "IVRS table too short: "@ + digits(len as nat, 10) + " bytes"@,
        IvrsError::BadSignature(sig) => "bad IVRS signature: "@ + hex_list(sig@),
        IvrsError::BadLength { claimed, available } => "bad length: claimed "@ + digits(
            claimed as nat,
            10,
        ) + ", available "@ + digits(available as nat, 10),
        IvrsError::BadChecksum => "checksum mismatch"@,
    }
}

impl IvrsError {
    /// A human-readable description of the error.
    pub fn describe(&self) -> (r: String)
        ensures
            r@ == ivrs_error_text(*self),
    {
        let mut s = String::new();
        match self {
            IvrsError::TooShort { len } => {
                s.append("IVRS table too short: ");
                push_decimal(&mut s, *len as u64);
                s.append(" bytes");
            },
            IvrsError::BadSignature(sig) => {
                s.append("bad IVRS signature: ");
                push_hex_list(&mut s, sig);
            },
            IvrsError::BadLength { claimed, available } => {
                s.append("bad length: claimed ");
                push_decimal(&mut s, *claimed as u64);
                s.append(", available ");
                push_decimal(&mut s, *available as u64);
            },
            IvrsError::BadChecksum => {
                s.append("checksum mismatch");
            },
        }
        s
    }
}

/// Offset of the first block (36-byte header + virtualization info[8]).
pub const BLOCKS_OFFSET: usize = 44;

/// The smallest buffer accepted as an IVRS table.
pub const MIN_TABLE_LEN: usize = 48;

/// The signature bytes `IVRS`.
pub open spec fn ivrs_signature(raw: Seq<u8>) -> bool {
    raw[0] == 0x49 && raw[1] == 0x56 && raw[2] == 0x52 && raw[3] == 0x53
}

/// The table length claimed by the header.
pub open spec fn claimed_len(raw: Seq<u8>) -> int {
    le32_at(raw, 4) as int
}

/// A parsed view of the ACPI IVRS table.
#[derive(Debug, Clone, Copy)]
pub struct IvrsTable<'a> {
    raw: &'a [u8],
}

impl<'a> IvrsTable<'a> {
    #[verifier::type_invariant]
    closed spec fn inv(self) -> bool {
        self.raw@.len() >= BLOCKS_OFFSET
    }

    /// The table bytes (the header-claimed length of the buffer).
    pub closed spec fn bytes(&self) -> Seq<u8> {
        self.raw@
    }

    /// Validate `raw` as an IVRS table. The checks come in this order:
    /// minimum length (48 bytes), signature, claimed length, checksum; the
    /// first that fails gives the error.
    pub fn new(raw: &'a [u8]) -> (r: Result<Self, IvrsError>)
        ensures
            raw@.len() < MIN_TABLE_LEN ==> r == Err::<Self, IvrsError>(
                IvrsError::TooShort { len: raw@.len() as usize },
            ),
            raw@.len() >= MIN_TABLE_LEN && !ivrs_signature(raw@) ==> (r matches Err(
                IvrsError::BadSignature(sig),
            ) && sig@ == raw@.subrange(0, 4)),
            raw@.len() >= MIN_TABLE_LEN && ivrs_signature(raw@) && (claimed_len(raw@)
                < BLOCKS_OFFSET || claimed_len(raw@) > raw@.len()) ==> r == Err::<Self, IvrsError>(
                IvrsError::BadLength {
                    claimed: claimed_len(raw@) as usize,
                    available: raw@.len() as usize,
                },
            ),
            raw@.len() >= MIN_TABLE_LEN && ivrs_signature(raw@) && BLOCKS_OFFSET <= claimed_len(
                raw@,
            ) <= raw@.len() ==> (if checksum_ok(raw@.subrange(0, claimed_len(raw@))) {
                r matches Ok(t) && t.bytes() == raw@.subrange(0, claimed_len(raw@))
            } else {
                r == Err::<Self, IvrsError>(IvrsError::BadChecksum)
            }),
    {
        if raw.len() < MIN_TABLE_LEN {
            return Err(IvrsError::TooShort { len: raw.len() });
        }
        if !(raw[0] == 0x49 && raw[1] == 0x56 && raw[2] == 0x52 && raw[3] == 0x53) {
            let sig = [raw[0], raw[1], raw[2], raw[3]];
            proof {
                assert(sig@ == raw@.subrange(0, 4));
            }
            return Err(IvrsError::BadSignature(sig));
        }
        let total = read_le32(raw, 4) as usize;
        if total < BLOCKS_OFFSET || total > raw.len() {
            return Err(IvrsError::BadLength { claimed: total, available: raw.len() });
        }
        let table = &raw[0..total];
        if wrapping_byte_sum(table) != 0 {
            return Err(IvrsError::BadChecksum);
        }
        Ok(IvrsTable { raw: table })
    }

    /// Table revision (byte 8).
    pub fn revision(&self) -> (r: u8)
        ensures
            r == self.bytes()[8],
    {
        proof {
            use_type_invariant(self);
        }
        self.raw[8]
    }

    /// ACPI checksum byte (byte 9).
    pub fn checksum(&self) -> (r: u8)
        ensures
            r == self.bytes()[9],
    {
        proof {
            use_type_invariant(self);
        }
        self.raw[9]
    }

    /// Iterate over all IVHD / IVMD blocks in declaration order.
    pub fn blocks(&self) -> (r: BlockIter<'a>)
        ensures
            r.rest() == self.bytes().subrange(BLOCKS_OFFSET as int, self.bytes().len() as int),
    {
        proof {
            use_type_invariant(self);
        }
        BlockIter { bytes: &self.raw[BLOCKS_OFFSET..self.raw.len()] }
    }

    /// All IVHD (hardware definition) blocks, in table order.
    pub fn ivhd_units(&self) -> (r: Vec<Ivhd<'a>>)
        ensures
            r@.map_values(|h: Ivhd<'a>| h.bytes()) == ivhd_blocks(
                self.bytes().subrange(BLOCKS_OFFSET as int, self.bytes().len() as int),
            ),
    {
        let mut it = self.blocks();
        let ghost all = it.rest();
        let mut out: Vec<Ivhd<'a>> = Vec::new();
        loop
            invariant
                out@.map_values(|h: Ivhd<'a>| h.bytes()) + ivhd_blocks(it.rest()) == ivhd_blocks(
                    all,
                ),
                all == self.bytes().subrange(BLOCKS_OFFSET as int, self.bytes().len() as int),
            decreases it.rest().len(),
        {
            let ghost before = it.rest();
            match it.next() {
                None => {
                    proof {
                        assert(out@.map_values(|h: Ivhd<'a>| h.bytes()) + ivhd_blocks(it.rest())
                            == out@.map_values(|h: Ivhd<'a>| h.bytes()));
                    }
                    return out;
                },
                Some(Block::Ivhd(h)) => {
                    let ghost old_out = out@;
                    out.push(h);
                    proof {
                        assert(out@.map_values(|h: Ivhd<'a>| h.bytes()) == old_out.map_values(
                            |h: Ivhd<'a>| h.bytes(),
                        ).push(h.bytes()));
                        assert(seq![h.bytes()] + ivhd_blocks(it.rest()) == ivhd_blocks(before));
                        assert(old_out.map_values(|h: Ivhd<'a>| h.bytes()).push(h.bytes())
                            + ivhd_blocks(it.rest()) == old_out.map_values(|h: Ivhd<'a>| h.bytes())
                            + (seq![h.bytes()] + ivhd_blocks(it.rest())));
                    }
                },
                Some(_) => {},
            }
        }
    }

    /// All IVMD (memory definition) blocks, in table order.
    pub fn ivmd_units(&self) -> (r: Vec<Ivmd<'a>>)
        ensures
            r@.map_values(|m: Ivmd<'a>| m.bytes()) == ivmd_blocks(
                self.bytes().subrange(BLOCKS_OFFSET as int, self.bytes().len() as int),
            ),
    {
        let mut it = self.blocks();
        let ghost all = it.rest();
        let mut out: Vec<Ivmd<'a>> = Vec::new();
        loop
            invariant
                out@.map_values(|m: Ivmd<'a>| m.bytes()) + ivmd_blocks(it.rest()) == ivmd_blocks(
                    all,
                ),
                all == self.bytes().subrange(BLOCKS_OFFSET as int, self.bytes().len() as int),
            decreases it.rest().len(),
        {
            let ghost before = it.rest();
            match it.next() {
                None => {
                    proof {
                        assert(out@.map_values(|m: Ivmd<'a>| m.bytes()) + ivmd_blocks(it.rest())
                            == out@.map_values(|m: Ivmd<'a>| m.bytes()));
                    }
                    return out;
                },
                Some(Block::Ivmd(m)) => {
                    let ghost old_out = out@;
                    out.push(m);
                    proof {
                        assert(out@.map_values(|m: Ivmd<'a>| m.bytes()) == old_out.map_values(
                            |m: Ivmd<'a>| m.bytes(),
                        ).push(m.bytes()));
                        assert(seq![m.bytes()] + ivmd_blocks(it.rest()) == ivmd_blocks(before));
                        assert(old_out.map_values(|m: Ivmd<'a>| m.bytes()).push(m.bytes())
                            + ivmd_blocks(it.rest()) == old_out.map_values(|m: Ivmd<'a>| m.bytes())
                            + (seq![m.bytes()] + ivmd_blocks(it.rest())));
                    }
                },
                Some(_) => {},
            }
        }
    }
}

/// Block type codes.
#[derive(Copy, Clone, Debug, PartialEq, Eq, Structural)]
pub enum EntryType {
    /// `10h` — IVHD, legacy device entry formats.
    IvhdType10,
    /// `11h` — IVHD with expanded feature reporting.
    IvhdType11,
    /// `40h` — IVHD v3.
    IvhdType40,
    /// `20h` — IVMD.
    Ivmd,
    /// Any other / reserved type.
    Reserved(u8),
}

/// The block type named by a type byte.
pub open spec fn entry_type_of(v: u8) -> EntryType {
    if v == 0x10 {
        EntryType::IvhdType10
    } else if v == 0x11 {
        EntryType::IvhdType11
    } else if v == 0x20 {
        EntryType::Ivmd
    } else if v == 0x40 {
        EntryType::IvhdType40
    } else {
        EntryType::Reserved(v)
    }
}

impl From<u8> for EntryType {
    fn from(v: u8) -> (r: Self)
        ensures
            r == entry_type_of(v),
    {
        if v == 0x10 {
            EntryType::IvhdType10
        } else if v == 0x11 {
            EntryType::IvhdType11
        } else if v == 0x20 {
            EntryType::Ivmd
        } else if v == 0x40 {
            EntryType::IvhdType40
        } else {
            EntryType::Reserved(v)
        }
    }
}

impl vstd::std_specs::convert::FromSpecImpl<u8> for EntryType {
    open spec fn obeys_from_spec() -> bool {
        true
    }

    open spec fn from_spec(v: u8) -> EntryType {
        entry_type_of(v)
    }
}

/// `true` for the IVHD block types 10h, 11h and 40h.
pub open spec fn is_ivhd_type(v: u8) -> bool {
    v == 0x10 || v == 0x11 || v == 0x40
}

/// The length of the next block of `bytes`, when a whole block is there:
/// at least four bytes, and a length field (bytes 2..4) of at least four
/// that does not overrun `bytes`.
pub open spec fn next_block_len(bytes: Seq<u8>) -> Option<int> {
    if bytes.len() < 4 {
        None
    } else {
        let len = le16_at(bytes, 2) as int;
        if len < 4 || len > bytes.len() {
            None
        } else {
            Some(len)
        }
    }
}

/// The IVHD blocks among the blocks of `bytes`, in order.
pub open spec fn ivhd_blocks(bytes: Seq<u8>) -> Seq<Seq<u8>>
    decreases bytes.len(),
{
    match next_block_len(bytes) {
        None => Seq::empty(),
        Some(len) => {
            let rest = bytes.subrange(len, bytes.len() as int);
            if is_ivhd_type(bytes[0]) {
                seq![bytes.subrange(0, len)] + ivhd_blocks(rest)
            } else {
                ivhd_blocks(rest)
            }
        },
    }
}

/// The IVMD blocks among the blocks of `bytes`, in order.
pub open spec fn ivmd_blocks(bytes: Seq<u8>) -> Seq<Seq<u8>>
    decreases bytes.len(),
{
    match next_block_len(bytes) {
        None => Seq::empty(),
        Some(len) => {
            let rest = bytes.subrange(len, bytes.len() as int);
            if bytes[0] == 0x20 {
                seq![bytes.subrange(0, len)] + ivmd_blocks(rest)
            } else {
                ivmd_blocks(rest)
            }
        },
    }
}

/// `a` is a run of whole blocks: each length field is at least the
/// header and fits in what is left.
pub open spec fn whole_blocks(a: Seq<u8>) -> bool
    decreases a.len(),
{
    if a.len() == 0 {
        true
    } else {
        match next_block_len(a) {
            None => false,
            Some(len) => whole_blocks(a.subrange(len, a.len() as int)),
        }
    }
}

/// A whole block at the front of `a` is read the same with bytes after it.
proof fn lemma_next_block_len_prefix(a: Seq<u8>, b: Seq<u8>)
    requires
        next_block_len(a) is Some,
    ensures
        next_block_len(a + b) == next_block_len(a),
        (a + b)[0] == a[0],
        (next_block_len(a) matches Some(len) && (a + b).subrange(len, (a + b).len() as int) =~= a.subrange(
            len,
            a.len() as int,
        ) + b),
{
    assert((a + b)[0] == a[0]);
    assert((a + b)[1] == a[1]);
    assert((a + b)[2] == a[2]);
    assert((a + b)[3] == a[3]);
}

/// Law: the IVHD blocks of a run of whole blocks followed by any bytes are the
/// IVHD blocks of the run followed by the IVHD blocks of the rest: no block is
/// skipped or cut short at a boundary.
pub proof fn lemma_ivhd_blocks_concat(a: Seq<u8>, b: Seq<u8>)
    requires
        whole_blocks(a),
    ensures
        ivhd_blocks(a + b) == ivhd_blocks(a) + ivhd_blocks(b),
    decreases a.len(),
{
    if a.len() == 0 {
        assert(a + b =~= b);
        assert(ivhd_blocks(a) =~= Seq::<Seq<u8>>::empty());
    } else {
        let len = next_block_len(a)->0;
        lemma_next_block_len_prefix(a, b);
        let ra = a.subrange(len, a.len() as int);
        lemma_ivhd_blocks_concat(ra, b);
        assert((a + b).subrange(0, len) =~= a.subrange(0, len));
        assert((ivhd_blocks(a) + ivhd_blocks(b)) =~= ivhd_blocks(a + b));
    }
}

/// Law: the IVMD blocks of a run of whole blocks followed by any bytes are the
/// IVMD blocks of the run followed by the IVMD blocks of the rest: no block is
/// skipped or cut short at a boundary.
pub proof fn lemma_ivmd_blocks_concat(a: Seq<u8>, b: Seq<u8>)
    requires
        whole_blocks(a),
    ensures
        ivmd_blocks(a + b) == ivmd_blocks(a) + ivmd_blocks(b),
    decreases a.len(),
{
    if a.len() == 0 {
        assert(a + b =~= b);
        assert(ivmd_blocks(a) =~= Seq::<Seq<u8>>::empty());
    } else {
        let len = next_block_len(a)->0;
        lemma_next_block_len_prefix(a, b);
        let ra = a.subrange(len, a.len() as int);
        lemma_ivmd_blocks_concat(ra, b);
        assert((a + b).subrange(0, len) =~= a.subrange(0, len));
        assert((ivmd_blocks(a) + ivmd_blocks(b)) =~= ivmd_blocks(a + b));
    }
}

/// One IVRS block, borrowed from the table.
#[derive(Debug)]
pub enum Block<'a> {
    /// I/O virtualization hardware definition.
    Ivhd(Ivhd<'a>),
    /// I/O virtualization memory definition.
    Ivmd(Ivmd<'a>),
    /// Unknown block type.
    Unknown {
        /// Block type.
        ty: u8,
        /// Raw bytes.
        raw: &'a [u8],
    },
}

/// `b` is the block whose bytes are `raw`.
pub open spec fn block_is(b: Block, raw: Seq<u8>) -> bool {
    match b {
        Block::Ivhd(h) => is_ivhd_type(raw[0]) && h.bytes() == raw,
        Block::Ivmd(m) => raw[0] == 0x20 && m.bytes() == raw,
        Block::Unknown { ty, raw: r } => !is_ivhd_type(raw[0]) && raw[0] != 0x20 && ty == raw[0]
            && r@ == raw,
    }
}

/// Iterator over IVRS blocks; stops on a length-inconsistent tail.
#[derive(Debug, Clone)]
pub struct BlockIter<'a> {
    bytes: &'a [u8],
}

impl<'a> BlockIter<'a> {
    /// The bytes not consumed yet.
    pub closed spec fn rest(&self) -> Seq<u8> {
        self.bytes@
    }

    /// The next block. Without a whole block ahead the iterator yields
    /// `None` and stays where it is.
    pub fn next(&mut self) -> (r: Option<Block<'a>>)
        ensures
            match next_block_len(old(self).rest()) {
                None => r is None && final(self).rest() == old(self).rest(),
                Some(len) => {
                    &&& r matches Some(b) && block_is(b, old(self).rest().subrange(0, len))
                    &&& final(self).rest() == old(self).rest().subrange(
                        len,
                        old(self).rest().len() as int,
                    )
                },
            },
    {
        if self.bytes.len() < 4 {
            return None;
        }
        let ty = self.bytes[0];
        let len = read_le16(self.bytes, 2) as usize;
        if len < 4 || len > self.bytes.len() {
            return None;
        }
        let raw = &self.bytes[0..len];
        let rest = &self.bytes[len..self.bytes.len()];
        self.bytes = rest;
        if ty == 0x10 || ty == 0x11 || ty == 0x40 {
            Some(Block::Ivhd(Ivhd { raw }))
        } else if ty == 0x20 {
            Some(Block::Ivmd(Ivmd { raw }))
        } else {
            Some(Block::Unknown { ty, raw })
        }
    }

    /// The next IVHD block. Allocation-free: the
    /// structures of other kinds are skipped; `None` once none is left.
    pub fn next_ivhd(&mut self) -> (r: Option<Ivhd<'a>>)
        ensures
            ivhd_blocks(old(self).rest()).len() == 0 ==> r is None,
            ivhd_blocks(old(self).rest()).len() > 0 ==> {
                &&& r matches Some(x) && x.bytes() == ivhd_blocks(old(self).rest())[0]
                &&& ivhd_blocks(final(self).rest()) == ivhd_blocks(old(self).rest()).drop_first()
            },
    {
        let ghost start = self.rest();
        loop
            invariant
                start == old(self).rest(),
                ivhd_blocks(self.rest()) == ivhd_blocks(start),
            decreases self.rest().len(),
        {
            let ghost before = self.rest();
            match self.next() {
                None => {
                    return None;
                },
                Some(Block::Ivhd(x)) => {
                    proof {
                        assert(seq![x.bytes()] + ivhd_blocks(self.rest()) == ivhd_blocks(before));
                        assert((ivhd_blocks(start)).drop_first() =~= ivhd_blocks(self.rest()));
                    }
                    return Some(x);
                },
                Some(_) => {},
            }
        }
    }

    /// The next IVMD block. Allocation-free: the
    /// structures of other kinds are skipped; `None` once none is left.
    pub fn next_ivmd(&mut self) -> (r: Option<Ivmd<'a>>)
        ensures
            ivmd_blocks(old(self).rest()).len() == 0 ==> r is None,
            ivmd_blocks(old(self).rest()).len() > 0 ==> {
                &&& r matches Some(x) && x.bytes() == ivmd_blocks(old(self).rest())[0]
                &&& ivmd_blocks(final(self).rest()) == ivmd_blocks(old(self).rest()).drop_first()
            },
    {
        let ghost start = self.rest();
        loop
            invariant
                start == old(self).rest(),
                ivmd_blocks(self.rest()) == ivmd_blocks(start),
            decreases self.rest().len(),
        {
            let ghost before = self.rest();
            match self.next() {
                None => {
                    return None;
                },
                Some(Block::Ivmd(x)) => {
                    proof {
                        assert(seq![x.bytes()] + ivmd_blocks(self.rest()) == ivmd_blocks(before));
                        assert((ivmd_blocks(start)).drop_first() =~= ivmd_blocks(self.rest()));
                    }
                    return Some(x);
                },
                Some(_) => {},
            }
        }
    }

}

/// I/O Virtualization Hardware Definition block (IVHD).
///
/// Layout: type (1) + flags (1) + length (2) + IOMMU id (1) + PCI segment
/// (2) + base address (8) + device range (2) + capability (4); types
/// 11h/40h add an extended feature dword; device entries follow.
#[derive(Debug, Clone, Copy)]
pub struct Ivhd<'a> {
    raw: &'a [u8],
}

impl<'a> Ivhd<'a> {
    #[verifier::type_invariant]
    closed spec fn inv(self) -> bool {
        self.raw@.len() >= 4
    }

    /// The block bytes.
    pub closed spec fn bytes(&self) -> Seq<u8> {
        self.raw@
    }

    /// Full raw bytes of the block (header included); its length is the
    /// length the accessors below speak of.
    pub fn raw(&self) -> (r: &'a [u8])
        ensures
            r@ == self.bytes(),
    {
        self.raw
    }

    /// Block type.
    pub fn entry_type(&self) -> (r: EntryType)
        ensures
            r == entry_type_of(self.bytes()[0]),
    {
        proof {
            use_type_invariant(self);
        }
        EntryType::from(self.raw[0])
    }

    /// Block flags (raw byte 1).
    pub fn flags(&self) -> (r: u8)
        ensures
            r == self.bytes()[1],
    {
        proof {
            use_type_invariant(self);
        }
        self.raw[1]
    }

    /// IOMMU identifier (byte 4).
    pub fn iommu_id(&self) -> (r: u8)
        requires
            self.bytes().len() >= 5,
        ensures
            r == self.bytes()[4],
    {
        self.raw[4]
    }

    /// PCI segment number (bytes 5..7).
    pub fn segment(&self) -> (r: u16)
        requires
            self.bytes().len() >= 7,
        ensures
            r == le16_at(self.bytes(), 5),
    {
        read_le16(self.raw, 5)
    }

    /// Base address of the IOMMU MMIO register set (bytes 7..15), or 0
    /// when the block is too short to hold it.
    pub fn base_address(&self) -> (r: u64)
        ensures
            r == if self.bytes().len() >= 15 {
                le64_at(self.bytes(), 7)
            } else {
                0
            },
    {
        if self.raw.len() >= 15 {
            read_le64(self.raw, 7)
        } else {
            0
        }
    }

    /// PCI device range covered by this IOMMU (bytes 15 and 16).
    pub fn device_range(&self) -> (r: Option<(u16, u16)>)
        ensures
            r == if self.bytes().len() >= 17 {
                Some((self.bytes()[15] as u16, self.bytes()[16] as u16))
            } else {
                None::<(u16, u16)>
            },
    {
        if self.raw.len() >= 17 {
            Some((self.raw[15] as u16, self.raw[16] as u16))
        } else {
            None
        }
    }

    /// Raw capability dword (bytes 17..21).
    pub fn capability(&self) -> (r: Option<u32>)
        ensures
            r == if self.bytes().len() >= 21 {
                Some(le32_at(self.bytes(), 17))
            } else {
                None::<u32>
            },
    {
        if self.raw.len() >= 21 {
            Some(read_le32(self.raw, 17))
        } else {
            None
        }
    }

    /// Raw extended-feature dword (bytes 21..25) for types 11h/40h.
    pub fn extended_features(&self) -> (r: Option<u32>)
        ensures
            r == if (self.bytes()[0] == 0x11 || self.bytes()[0] == 0x40) && self.bytes().len()
                >= 25 {
                Some(le32_at(self.bytes(), 21))
            } else {
                None::<u32>
            },
    {
        proof {
            use_type_invariant(self);
        }
        let ty = self.raw[0];
        if (ty == 0x11 || ty == 0x40) && self.raw.len() >= 25 {
            Some(read_le32(self.raw, 21))
        } else {
            None
        }
    }

    /// Device entries declared in this IVHD: they start at byte 24 for
    /// type 10h and at byte 28 otherwise.
    pub fn devices(&self) -> (r: DeviceEntryIter<'a>)
        ensures
            ({
                let hdr: int = if self.bytes()[0] == 0x10 {
                    24
                } else {
                    28
                };
                r.rest() == if self.bytes().len() >= hdr {
                    self.bytes().subrange(hdr, self.bytes().len() as int)
                } else {
                    Seq::<u8>::empty()
                }
            }),
    {
        proof {
            use_type_invariant(self);
        }
        let hdr: usize = if self.raw[0] == 0x10 {
            24
        } else {
            28
        };
        let n = self.raw.len();
        if n >= hdr {
            DeviceEntryIter { bytes: &self.raw[hdr..n] }
        } else {
            DeviceEntryIter { bytes: &self.raw[n..n] }
        }
    }
}

/// I/O Virtualization Memory Definition block (IVMD).
#[derive(Debug, Clone, Copy)]
pub struct Ivmd<'a> {
    raw: &'a [u8],
}

impl<'a> Ivmd<'a> {
    #[verifier::type_invariant]
    closed spec fn inv(self) -> bool {
        self.raw@.len() >= 4
    }

    /// The block bytes.
    pub closed spec fn bytes(&self) -> Seq<u8> {
        self.raw@
    }

    /// Full raw bytes of the block (header included); its length is the
    /// length the accessors below speak of.
    pub fn raw(&self) -> (r: &'a [u8])
        ensures
            r@ == self.bytes(),
    {
        self.raw
    }

    /// Block flags (bit 0: exclude, bit 1: unity, bit 2: init-pass).
    pub fn flags(&self) -> (r: u8)
        ensures
            r == self.bytes()[1],
    {
        proof {
            use_type_invariant(self);
        }
        self.raw[1]
    }

    /// PCI segment (bytes 4..6).
    pub fn segment(&self) -> (r: u16)
        requires
            self.bytes().len() >= 6,
        ensures
            r == le16_at(self.bytes(), 4),
    {
        read_le16(self.raw, 4)
    }

    /// Base physical address of the region (bytes 8..16), or 0 when absent.
    pub fn base(&self) -> (r: u64)
        ensures
            r == if self.bytes().len() >= 16 {
                le64_at(self.bytes(), 8)
            } else {
                0
            },
    {
        if self.raw.len() >= 16 {
            read_le64(self.raw, 8)
        } else {
            0
        }
    }

    /// Length of the region in bytes (bytes 16..24), or 0 when absent.
    pub fn length(&self) -> (r: u64)
        ensures
            r == if self.bytes().len() >= 24 {
                le64_at(self.bytes(), 16)
            } else {
                0
            },
    {
        if self.raw.len() >= 24 {
            read_le64(self.raw, 16)
        } else {
            0
        }
    }
}

/// Device entry type codes.
#[derive(Copy, Clone, Debug, PartialEq, Eq, Structural)]
pub enum DeviceType {
    /// `01h` — all devices on the bus.
    All,
    /// `02h` — one device (select).
    Select,
    /// `03h` — alias select (device reported under an alias id).
    AliasSelect,
    /// `40h`/`41h`/`42h` — special device (variable length).
    Special,
    /// `48h` — ACPI HID/FN (variable length).
    AcpiHid,
    /// Any other / reserved code.
    Reserved(u8),
}

/// The device entry type named by a type byte.
pub open spec fn device_type_of(v: u8) -> DeviceType {
    if v == 0x01 {
        DeviceType::All
    } else if v == 0x02 {
        DeviceType::Select
    } else if v == 0x03 {
        DeviceType::AliasSelect
    } else if 0x40 <= v <= 0x42 {
        DeviceType::Special
    } else if v == 0x48 {
        DeviceType::AcpiHid
    } else {
        DeviceType::Reserved(v)
    }
}

impl From<u8> for DeviceType {
    fn from(v: u8) -> (r: Self)
        ensures
            r == device_type_of(v),
    {
        if v == 0x01 {
            DeviceType::All
        } else if v == 0x02 {
            DeviceType::Select
        } else if v == 0x03 {
            DeviceType::AliasSelect
        } else if 0x40 <= v && v <= 0x42 {
            DeviceType::Special
        } else if v == 0x48 {
            DeviceType::AcpiHid
        } else {
            DeviceType::Reserved(v)
        }
    }
}

impl vstd::std_specs::convert::FromSpecImpl<u8> for DeviceType {
    open spec fn obeys_from_spec() -> bool {
        true
    }

    open spec fn from_spec(v: u8) -> DeviceType {
        device_type_of(v)
    }
}

/// One device entry (parsed view).
#[derive(Debug, Clone, PartialEq, Eq)]
pub enum DeviceEntry<'a> {
    /// 4-byte entry: all/select (bus or bus+devfn).
    Short {
        /// Entry type.
        ty: DeviceType,
        /// First data byte (bus, or devfn for select).
        data: u8,
        /// Second data byte.
        data2: u8,
    },
    /// 8-byte entry: alias (adds a 16-bit source id).
    Long {
        /// Entry type.
        ty: DeviceType,
        /// Bus.
        bus: u8,
        /// Device-function.
        devfn: u8,
        /// Alias / target source id.
        source_id: u16,
    },
    /// Variable-length entry (special device / ACPI HID).
    Variable {
        /// Entry type.
        ty: DeviceType,
        /// Full raw bytes of the entry.
        raw: &'a [u8],
    },
}

/// `true` for the variable-length entry types 40h, 41h, 42h and 48h.
pub open spec fn is_variable_entry(v: u8) -> bool {
    v == 0x40 || v == 0x41 || v == 0x42 || v == 0x48
}

/// Length of a fixed-size entry of type `v`: eight bytes for 03h and
/// 28h..=2Fh, four otherwise.
pub open spec fn fixed_entry_len(v: u8) -> int {
    if v == 0x03 || (0x28 <= v <= 0x2f) {
        8
    } else {
        4
    }
}

/// The length of the next device entry of `bytes`, when a whole entry is
/// there. Variable-length entries carry their length in byte 1 (at least
/// four); the others have the fixed length of their type.
pub open spec fn next_entry_len(bytes: Seq<u8>) -> Option<int> {
    if bytes.len() == 0 {
        None
    } else if is_variable_entry(bytes[0]) {
        if bytes.len() < 2 {
            None
        } else {
            let len = bytes[1] as int;
            if len < 4 || len > bytes.len() {
                None
            } else {
                Some(len)
            }
        }
    } else if bytes.len() < fixed_entry_len(bytes[0]) {
        None
    } else {
        Some(fixed_entry_len(bytes[0]))
    }
}

/// `e` is the device entry whose bytes are `raw`.
pub open spec fn device_entry_is(e: DeviceEntry, raw: Seq<u8>) -> bool {
    let ty = device_type_of(raw[0]);
    if is_variable_entry(raw[0]) {
        e matches DeviceEntry::Variable { ty: t, raw: r } && t == ty && r@ == raw
    } else if raw.len() == 4 {
        e == DeviceEntry::Short { ty, data: raw[2], data2: raw[3] }
    } else {
        e == DeviceEntry::Long { ty, bus: raw[2], devfn: raw[3], source_id: le16_at(raw, 6) }
    }
}

/// Iterator over the device entries of an IVHD.
#[derive(Debug, Clone)]
pub struct DeviceEntryIter<'a> {
    bytes: &'a [u8],
}

impl<'a> DeviceEntryIter<'a> {
    /// The bytes not consumed yet.
    pub closed spec fn rest(&self) -> Seq<u8> {
        self.bytes@
    }

    /// The next device entry. Without a whole entry ahead the iterator
    /// yields `None` and stays where it is.
    pub fn next(&mut self) -> (r: Option<DeviceEntry<'a>>)
        ensures
            match next_entry_len(old(self).rest()) {
                None => r is None && final(self).rest() == old(self).rest(),
                Some(len) => {
                    &&& r matches Some(e) && device_entry_is(e, old(self).rest().subrange(0, len))
                    &&& final(self).rest() == old(self).rest().subrange(
                        len,
                        old(self).rest().len() as int,
                    )
                },
            },
    {
        if self.bytes.len() == 0 {
            return None;
        }
        let first = self.bytes[0];
        let ty = DeviceType::from(first);
        if first == 0x40 || first == 0x41 || first == 0x42 || first == 0x48 {
            if self.bytes.len() < 2 {
                return None;
            }
            let len = self.bytes[1] as usize;
            if len < 4 || len > self.bytes.len() {
                return None;
            }
            let raw = &self.bytes[0..len];
            self.bytes = &self.bytes[len..self.bytes.len()];
            return Some(DeviceEntry::Variable { ty, raw });
        }
        let needed: usize = if first == 0x03 || (0x28 <= first && first <= 0x2f) {
            8
        } else {
            4
        };
        if self.bytes.len() < needed {
            return None;
        }
        let raw = &self.bytes[0..needed];
        self.bytes = &self.bytes[needed..self.bytes.len()];
        if needed == 4 {
            Some(DeviceEntry::Short { ty, data: raw[2], data2: raw[3] })
        } else {
            Some(
                DeviceEntry::Long { ty, bus: raw[2], devfn: raw[3], source_id: read_le16(raw, 6) },
            )
        }
    }
}

} // verus!
