//! IOMMU page tables: v1 (IOMMU-specific) and v2 (AMD64 long-mode layout).
//!
//! * **v1 tables** translate *device* IOVA into system physical addresses
//!   with `PR` (present) and `IR`/`IW` permissions and 4 KiB / 2 MiB / 1 GiB
//!   pages.
//! * **v2 tables** reuse the AMD64 long-mode page-table format (4- or
//!   5-level) with the standard flag layout (`P`, `RW`, `US`, `A`, `D`,
//!   `PS`, `G`, `NX` at bit 63).
//!
//! The walker is closure-driven: the caller maps the physical address of a
//! table entry to the entry, keeping the walker allocation-free.
use vstd::prelude::*;
use vstd::string::StringExecFns;

use crate::text::{digits, push_decimal};
use crate::amd::bits::extract_bits;
use crate::bitfield::{field, lemma_low_mask_values, low_mask};

verus! {

/// Page table format (DTE `Mode` field).
#[derive(Copy, Clone, Debug, PartialEq, Eq, Structural)]
pub enum Format {
    /// IOMMU v1 page tables.
    V1,
    /// IOMMU v2 page tables, AMD64 long-mode layout.
    V2,
}

/// Page-table permission / state bits shared by both formats.
#[derive(Copy, Clone, Debug, Default, PartialEq, Eq, Structural)]
pub struct Perm(pub u64);

impl Perm {
    /// Present (PR, bit 0).
    pub const P: u64 = 1 << 0;
    /// Read-write (RW, bit 1).
    pub const RW: u64 = 1 << 1;
    /// User/supervisor (US, bit 2).
    pub const US: u64 = 1 << 2;
    /// v1 read permission (IR, bit 4).
    pub const IR: u64 = 1 << 4;
    /// v1 write permission (IW, bit 5).
    pub const IW: u64 = 1 << 5;
    /// v2 accessed (bit 5; the IW position of v1).
    pub const ACCESSED: u64 = 1 << 5;
    /// v2 dirty (bit 6).
    pub const DIRTY: u64 = 1 << 6;
    /// Page size / huge page (PS, bit 7).
    pub const PS: u64 = 1 << 7;
    /// Global (G, bit 8).
    pub const G: u64 = 1 << 8;
    /// No-execute (NX, bit 63, v2).
    pub const NX: u64 = 1 << 63;
    /// Present + read-write.
    pub const P_RW: u64 = 0x3;

    /// Raw bits.
    #[verifier::allow_in_spec]
    pub fn bits(&self) -> u64
        returns
            self.0,
    {
        self.0
    }

    /// Keep every bit of `bits`, named or not.
    #[verifier::allow_in_spec]
    pub fn from_bits_retain(bits: u64) -> Perm
        returns
            Perm(bits),
    {
        Perm(bits)
    }

    /// `true` when every bit of `mask` is set.
    #[verifier::allow_in_spec]
    pub fn contains(&self, mask: u64) -> bool
        returns
            self.0 & mask == mask,
    {
        self.0 & mask == mask
    }
}

/// Result of a successful walk.
#[derive(Copy, Clone, Debug, PartialEq, Eq, Structural)]
pub struct WalkResult {
    /// Resolved system physical address.
    pub physical: u64,
    /// Leaf level (1 = 4 KiB).
    pub level: u8,
    /// Leaf permission bits (the whole leaf entry).
    pub perms: Perm,
    /// Leaf was a super page (PS = 1) above level 1.
    pub huge: bool,
}

/// Walk error.
#[derive(Copy, Clone, Debug, PartialEq, Eq, Structural)]
pub enum WalkError {
    /// An entry on the path was not present.
    NotPresent {
        /// Level at which the walk stopped.
        level: u8,
    },
    /// The input address exceeded the table width.
    AddressTooLarge {
        /// Bits covered by the table.
        bits: u32,
    },
}

/// The text that describes `e`.
pub open spec fn walk_error_text(e: WalkError) -> Seq<char> {
    match e {
        WalkError::NotPresent { level } => "not present at level "@ + digits(level as nat, 10),
        WalkError::AddressTooLarge { bits } => "address exceeds "@ + digits(bits as nat, 10)
            + "-bit table width"@,
    }
}

impl WalkError {
    /// A human-readable description of the error.
    pub fn describe(&self) -> (r: String)
        ensures
            r@ == walk_error_text(*self),
    {
        let mut s = String::new();
        match self {
            WalkError::NotPresent { level } => {
                s.append("not present at level ");
                push_decimal(&mut s, *level as u64);
            },
            WalkError::AddressTooLarge { bits } => {
                s.append("address exceeds ");
                push_decimal(&mut s, *bits as u64);
                s.append("-bit table width");
            },
        }
        s
    }
}

/// Mask of the physical address bits carried by a table entry (51:12).
pub open spec fn pa_mask() -> u64 {
    0x000f_ffff_ffff_f000
}

/// Bit position of the index at `level` (1 = 12, 2 = 21, 3 = 30, 4 = 39,
/// 5 = 48).
pub open spec fn level_shift(level: u8) -> u64 {
    (9 * level + 3) as u64
}

/// Index of `iova` in the table at `level`: the 9 bits above
/// `level_shift(level)`.
pub open spec fn level_index(iova: u64, level: u8) -> u64 {
    field(iova, level_shift(level), 9)
}

/// Physical address of the entry for `iova` in the table at `table`.
pub open spec fn entry_addr(table: u64, iova: u64, level: u8) -> u64 {
    (table + level_index(iova, level) * 8) as u64
}

/// `fetch` reads memory as `mem` does: whatever it returns for an address
/// is `mem`'s value there.
pub open spec fn reads_as<F: Fn(u64) -> u64>(fetch: F, mem: spec_fn(u64) -> u64) -> bool {
    forall|a: u64, v: u64| #[trigger] call_ensures(fetch, (a,), v) ==> v == mem(a)
}

/// The walk from the table at `table`, `level` levels above the leaves,
/// over the memory `mem`.
pub open spec fn walk_from(level: u8, table: u64, iova: u64, mem: spec_fn(u64) -> u64) -> Result<
    WalkResult,
    WalkError,
>
    decreases level,
{
    if level == 0 {
        Err(WalkError::NotPresent { level: 0 })
    } else {
        let entry = mem(entry_addr(table, iova, level));
        let ps = entry & Perm::PS != 0;
        if entry & 1 == 0 {
            Err(WalkError::NotPresent { level })
        } else if ps || level == 1 {
            Ok(
                WalkResult {
                    physical: (entry & pa_mask()) | (iova & low_mask(level_shift(level))),
                    level,
                    perms: Perm(entry),
                    huge: ps && level > 1,
                },
            )
        } else {
            walk_from((level - 1) as u8, entry & pa_mask(), iova, mem)
        }
    }
}

/// Number of address bits a table of `levels` levels translates.
pub open spec fn address_bits(levels: u8) -> u64 {
    (level_shift(levels) + 9) as u64
}

/// The walk of a `levels`-level table at `root` for `iova` over `mem`:
/// v2 tables refuse addresses wider than the tree first.
pub open spec fn walk_spec(
    format: Format,
    levels: u8,
    root: u64,
    iova: u64,
    mem: spec_fn(u64) -> u64,
) -> Result<WalkResult, WalkError> {
    if format == Format::V2 && (iova >> address_bits(levels)) != 0 {
        Err(WalkError::AddressTooLarge { bits: address_bits(levels) as u32 })
    } else {
        walk_from(levels, root, iova, mem)
    }
}

/// Law: a successful walk over `mem` ends at a present entry that `mem`
/// holds: the result's permissions are that entry's, its physical address
/// is the entry's frame with the bits of `iova` below the leaf level's
/// shift, and a leaf above level 1 has its page-size bit set.
pub proof fn lemma_walk_leaf_entry(level: u8, table: u64, iova: u64, mem: spec_fn(u64) -> u64)
    ensures
        walk_from(level, table, iova, mem) matches Ok(w) ==> exists|a: u64|
            #![trigger mem(a)]
            {
                &&& mem(a) & 1 != 0
                &&& w.perms == Perm(mem(a))
                &&& w.physical == (mem(a) & pa_mask()) | (iova & low_mask(level_shift(w.level)))
                &&& (w.level > 1 ==> mem(a) & Perm::PS != 0)
            },
    decreases level,
{
    if level > 0 {
        let a = entry_addr(table, iova, level);
        let entry = mem(a);
        if entry & 1 != 0 && !(entry & Perm::PS != 0 || level == 1) {
            lemma_walk_leaf_entry((level - 1) as u8, entry & pa_mask(), iova, mem);
        }
    }
}

/// What holds of a walk's outcome whatever `fetch` returns: an address
/// too wide for the tree is refused exactly when the format is v2 and `iova` has bits above the top level; a missing
/// entry is reported at a level of the tree; a leaf lies at a level of the
/// tree, is huge exactly above level 1, keeps the page offset of `iova`,
/// and carries every bit of `iova` below its level's shift.
pub open spec fn walk_outcome(
    too_wide: bool,
    levels: u8,
    iova: u64,
    r: Result<WalkResult, WalkError>,
) -> bool {
    match r {
        Err(WalkError::AddressTooLarge { bits }) => too_wide && bits == address_bits(levels),
        Err(WalkError::NotPresent { level }) => !too_wide && 1 <= level <= levels,
        Ok(w) => {
            &&& !too_wide
            &&& 1 <= w.level <= levels
            &&& w.huge == (w.level > 1)
            &&& w.physical & 0xfff == iova & 0xfff
            &&& w.physical & (iova & low_mask(level_shift(w.level))) == iova & low_mask(
                level_shift(w.level),
            )
        },
    }
}

/// The page offset and the bits below a leaf's shift survive into the
/// physical address.
proof fn lemma_leaf_offset(entry: u64, iova: u64, s: u64)
    by (bit_vector)
    requires
        12 <= s < 64,
    ensures
        ((entry & 0x000f_ffff_ffff_f000) | (iova & low_mask(s))) & 0xfff == iova & 0xfff,
        ((entry & 0x000f_ffff_ffff_f000) | (iova & low_mask(s))) & (iova & low_mask(s)) == iova
            & low_mask(s),
{
}

/// Walk a v1 or v2 page table for `iova`.
///
/// `levels` is the number of table levels (1..=5, usually 3, 4 or 5);
/// `root` is the physical address of the top-level table. Whatever memory
/// `fetch` reads, the result is the walk over that memory.
pub fn walk<F>(format: Format, levels: u8, root: u64, iova: u64, fetch: &F) -> (r: Result<
    WalkResult,
    WalkError,
>) where F: Fn(u64) -> u64
    requires
        1 <= levels <= 5,
        forall|a: u64| call_requires(*fetch, (a,)),
        (format == Format::V2 && (iova >> address_bits(levels)) != 0) || root + 8 * level_index(
            iova,
            levels,
        ) <= u64::MAX,
    ensures
        forall|mem: spec_fn(u64) -> u64|
            reads_as(*fetch, mem) ==> r == #[trigger] walk_spec(format, levels, root, iova, mem),
        walk_outcome((format == Format::V2 && (iova >> address_bits(levels)) != 0), levels, iova, r),
        r matches Ok(w) ==> exists|a: u64, v: u64|
            #![trigger call_ensures(*fetch, (a,), v)]
            {
                &&& call_ensures(*fetch, (a,), v)
                &&& v & 1 != 0
                &&& w.perms == Perm(v)
                &&& w.physical == (v & pa_mask()) | (iova & low_mask(level_shift(w.level)))
            },
{
    proof {
        lemma_low_mask_values();
    }
    let top_shift: u64 = 9 * (levels as u64) + 3;
    let addr_bits: u64 = top_shift + 9;
    if iova >> addr_bits != 0 && format == Format::V2 {
        return Err(WalkError::AddressTooLarge { bits: addr_bits as u32 });
    }
    let mut table = root;
    let mut level = levels;
    loop
        invariant
            1 <= level <= levels <= 5,
            forall|a: u64| call_requires(*fetch, (a,)),
            !((format == Format::V2 && (iova >> address_bits(levels)) != 0)),
            table + 8 * level_index(iova, level) <= u64::MAX,
            forall|mem: spec_fn(u64) -> u64|
                reads_as(*fetch, mem) ==> #[trigger] walk_spec(format, levels, root, iova, mem)
                    == walk_from(level, table, iova, mem),
        decreases level,
    {
        let shift: u8 = 9 * level + 3;
        let index = extract_bits(iova, shift + 8, shift);
        proof {
            lemma_low_mask_values();
            crate::bitfield::lemma_low_mask_bounds(iova >> (shift as u64), 0, 9);
        }
        let addr = table + index * 8;
        let entry = fetch(addr);
        if entry & 1 == 0 {
            return Err(WalkError::NotPresent { level });
        }
        let perms = Perm::from_bits_retain(entry);
        let ps = entry & Perm::PS != 0;
        if ps || level == 1 {
            let base = entry & 0x000f_ffff_ffff_f000;
            let off_mask = (1u64 << (shift as u64)) - 1;
            proof {
                assert(off_mask == low_mask(shift as u64));
                lemma_leaf_offset(entry, iova, shift as u64);
            }
            return Ok(WalkResult { physical: base | (iova & off_mask), level, perms, huge: ps && level > 1 });
        }
        proof {
            crate::bitfield::lemma_and_bounds(entry, 0x000f_ffff_ffff_f000);
            crate::bitfield::lemma_low_mask_bounds(iova >> level_shift((level - 1) as u8), 0, 9);
        }
        table = entry & 0x000f_ffff_ffff_f000;
        level = level - 1;
    }
}

/// Build a v2 (AMD64-style) present leaf entry: present, accessed and
/// dirty, writable and user-accessible as asked.
pub fn v2_page(paddr: u64, rw: bool, user: bool) -> (r: u64)
    ensures
        r == (paddr & pa_mask()) | Perm::P | Perm::ACCESSED | Perm::DIRTY | (if rw {
            Perm::RW
        } else {
            0
        }) | (if user {
            Perm::US
        } else {
            0
        }),
{
    let mut v = (paddr & 0x000f_ffff_ffff_f000) | Perm::P | Perm::ACCESSED | Perm::DIRTY;
    if rw {
        v = v | Perm::RW;
    } else {
        v = v | 0;
    }
    if user {
        v = v | Perm::US;
    } else {
        v = v | 0;
    }
    v
}

/// Build a v2 present non-leaf (next table) entry: present, writable,
/// user-accessible and accessed.
pub fn v2_table(next: u64) -> (r: u64)
    ensures
        r == (next & pa_mask()) | Perm::P_RW | Perm::US | Perm::ACCESSED,
{
    (next & 0x000f_ffff_ffff_f000) | Perm::P_RW | Perm::US | Perm::ACCESSED
}

/// Build a v1 leaf entry: `PR` plus the `IR`/`IW` permissions asked for.
pub fn v1_page(paddr: u64, read: bool, write: bool) -> (r: u64)
    ensures
        r == (paddr & pa_mask()) | Perm::P | (if read {
            Perm::IR
        } else {
            0
        }) | (if write {
            Perm::IW
        } else {
            0
        }),
{
    let mut v = (paddr & 0x000f_ffff_ffff_f000) | Perm::P;
    if read {
        v = v | Perm::IR;
    } else {
        v = v | 0;
    }
    if write {
        v = v | Perm::IW;
    } else {
        v = v | 0;
    }
    v
}

/// Index of `iova` in the table at `level` (1..=5).
pub fn index_at(iova: u64, level: u8) -> (r: usize)
    requires
        1 <= level <= 5,
    ensures
        r == level_index(iova, level),
        r < 512,
{
    proof {
        lemma_low_mask_values();
        crate::bitfield::lemma_low_mask_bounds(iova >> level_shift(level), 0, 9);
    }
    let shift: u8 = 9 * level + 3;
    extract_bits(iova, shift + 8, shift) as usize
}

} // verus!
