//! First-stage and second-stage page tables.
//!
//! * **First-stage** tables translate guest virtual addresses and follow
//!   the Intel-64 4-level or 5-level hierarchy.
//! * **Second-stage** tables translate guest *physical* addresses and follow
//!   the EPT-like hierarchy with `R/W/X`, accessed/dirty and execute-disable
//!   bits.
//!
//! The walker does not access memory itself: it takes a `fetch` closure
//! mapping the physical address of a table entry to the 64-bit entry.
use vstd::prelude::*;
use vstd::string::StringExecFns;

use crate::text::{digits, push_decimal};
use crate::bitfield::{field, lemma_and_bounds, lemma_low_mask_bounds, lemma_low_mask_values, low_mask};
use crate::intel::bits::extract_bits;

verus! {

/// Page-table hierarchy kind.
#[derive(Copy, Clone, Debug, PartialEq, Eq, Structural)]
pub enum Stage {
    /// First-stage (guest virtual address) tables.
    First,
    /// Second-stage (guest physical address) tables.
    Second,
}

/// Permission and state bits carried by present page-table entries of both
/// stages.
#[derive(Copy, Clone, Debug, Default, PartialEq, Eq, Structural)]
pub struct Perm(pub u64);

impl Perm {
    /// Read permission (R); also the present bit.
    pub const R: u64 = 1 << 0;
    /// Write permission (W).
    pub const W: u64 = 1 << 1;
    /// Execute permission (X).
    pub const X: u64 = 1 << 2;
    /// Read + write.
    pub const RW: u64 = 0x3;
    /// Read + write + execute.
    pub const RWX: u64 = 0x7;
    /// Huge-page / page-size flag (PS, bit 7).
    pub const PAGE_SIZE: u64 = 1 << 7;
    /// Accessed (A, bit 8).
    pub const ACCESSED: u64 = 1 << 8;
    /// Dirty (D, bit 9).
    pub const DIRTY: u64 = 1 << 9;
    /// Global (G, bit 10, first-stage).
    pub const GLOBAL: u64 = 1 << 10;
    /// Execute-disable (XD/NX, bit 63) — set means *no* execute.
    pub const EXECUTE_DISABLE: u64 = 1 << 63;
    /// Every named bit.
    pub const ALL: u64 = 0x8000_0000_0000_0787;

    /// Raw bits.
    #[verifier::allow_in_spec]
    pub fn bits(&self) -> u64
        returns
            self.0,
    {
        self.0
    }

    /// Keep only the named bits of `bits`.
    #[verifier::allow_in_spec]
    pub fn from_bits_truncate(bits: u64) -> Perm
        returns
            Perm(bits & Perm::ALL),
    {
        Perm(bits & Perm::ALL)
    }

    /// `true` when every bit of `mask` is set.
    #[verifier::allow_in_spec]
    pub fn contains(&self, mask: u64) -> bool
        returns
            self.0 & mask == mask,
    {
        self.0 & mask == mask
    }

    /// Hardware `RXW` nibble (bits 2:0).
    #[verifier::allow_in_spec]
    pub fn rxw(self) -> u8
        returns
            (self.0 & 0x7) as u8,
    {
        (self.0 & 0x7) as u8
    }
}

/// Error returned by the page-table walker.
#[derive(Copy, Clone, Debug, PartialEq, Eq, Structural)]
pub enum WalkError {
    /// An entry on the path was not present.
    NotPresent {
        /// Walk level at which the walk stopped (1 = leaf).
        level: u8,
    },
    /// The requested address exceeded the width covered by the table.
    AddressTooLarge {
        /// Address bits covered by the given number of levels.
        bits: u32,
    },
}

/// The text that describes `e`.
pub open spec fn walk_error_text(e: WalkError) -> Seq<char> {
    match e {
        WalkError::NotPresent { level } => "not present at level "@ + digits(level as nat, 10),
        WalkError::AddressTooLarge { bits } => "address exceeds "@ + digits(bits as nat, 10)
            + "-bit table width"@,
    }
}

impl WalkError {
    /// A human-readable description of the error.
    pub fn describe(&self) -> (r: String)
        ensures
            r@ == walk_error_text(*self),
    {
        let mut s = String::new();
        match self {
            WalkError::NotPresent { level } => {
                s.append("not present at level ");
                push_decimal(&mut s, *level as u64);
            },
            WalkError::AddressTooLarge { bits } => {
                s.append("address exceeds ");
                push_decimal(&mut s, *bits as u64);
                s.append("-bit table width");
            },
        }
        s
    }
}

/// Result of a successful page-table walk.
#[derive(Copy, Clone, Debug, PartialEq, Eq, Structural)]
pub struct WalkResult {
    /// Resolved physical address.
    pub physical: u64,
    /// Leaf level (1 = 4 KiB PTE, 2 = 2 MiB, 3 = 1 GiB).
    pub level: u8,
    /// Permissions of the leaf entry (its named bits).
    pub perms: Perm,
    /// Whether the leaf is a super page (PS = 1).
    pub huge: bool,
}

/// Mask of the physical address bits carried by a table entry (51:12).
pub open spec fn pa_mask() -> u64 {
    0x000f_ffff_ffff_f000
}

/// Bit position of the index at `level` (1 = 12, 2 = 21, 3 = 30, 4 = 39,
/// 5 = 48).
pub open spec fn level_shift(level: u8) -> u64 {
    (9 * level + 3) as u64
}

/// Index of `vaddr` in the table at `level`.
pub open spec fn level_index(vaddr: u64, level: u8) -> u64 {
    field(vaddr, level_shift(level), 9)
}

/// Physical address of the entry for `vaddr` in the table at `table`.
pub open spec fn entry_addr(table: u64, vaddr: u64, level: u8) -> u64 {
    (table + level_index(vaddr, level) * 8) as u64
}

/// `fetch` reads memory as `mem` does: whatever it returns for an address
/// is `mem`'s value there.
pub open spec fn reads_as<F: Fn(u64) -> u64>(fetch: F, mem: spec_fn(u64) -> u64) -> bool {
    forall|a: u64, v: u64| #[trigger] call_ensures(fetch, (a,), v) ==> v == mem(a)
}

/// The walk from the table at `table`, `level` levels above the leaves,
/// over the memory `mem`.
pub open spec fn walk_from(level: u8, table: u64, vaddr: u64, mem: spec_fn(u64) -> u64) -> Result<
    WalkResult,
    WalkError,
>
    decreases level,
{
    if level == 0 {
        Err(WalkError::NotPresent { level: 0 })
    } else {
        let entry = mem(entry_addr(table, vaddr, level));
        let ps = entry & Perm::PAGE_SIZE != 0;
        if entry & 1 == 0 {
            Err(WalkError::NotPresent { level })
        } else if ps || level == 1 {
            Ok(
                WalkResult {
                    physical: (entry & pa_mask()) | (vaddr & low_mask(level_shift(level))),
                    level,
                    perms: Perm(entry & Perm::ALL),
                    huge: ps && level > 1,
                },
            )
        } else {
            walk_from((level - 1) as u8, entry & pa_mask(), vaddr, mem)
        }
    }
}

/// Number of address bits a table of `levels` levels translates.
pub open spec fn address_bits(levels: u8) -> u64 {
    (level_shift(levels) + 9) as u64
}

/// The walk of a `levels`-level table at `root` for `vaddr` over `mem`:
/// second-stage tables refuse addresses wider than the tree first.
pub open spec fn walk_spec(
    stage: Stage,
    levels: u8,
    root: u64,
    vaddr: u64,
    mem: spec_fn(u64) -> u64,
) -> Result<WalkResult, WalkError> {
    if stage == Stage::Second && (vaddr >> address_bits(levels)) != 0 {
        Err(WalkError::AddressTooLarge { bits: address_bits(levels) as u32 })
    } else {
        walk_from(levels, root, vaddr, mem)
    }
}

/// Law: a successful walk over `mem` ends at a present entry that `mem`
/// holds: the result's permissions are that entry's, its physical address
/// is the entry's frame with the bits of `vaddr` below the leaf level's
/// shift, and a leaf above level 1 has its page-size bit set.
pub proof fn lemma_walk_leaf_entry(level: u8, table: u64, vaddr: u64, mem: spec_fn(u64) -> u64)
    ensures
        walk_from(level, table, vaddr, mem) matches Ok(w) ==> exists|a: u64|
            #![trigger mem(a)]
            {
                &&& mem(a) & 1 != 0
                &&& w.perms == Perm(mem(a) & Perm::ALL)
                &&& w.physical == (mem(a) & pa_mask()) | (vaddr & low_mask(level_shift(w.level)))
                &&& (w.level > 1 ==> mem(a) & Perm::PAGE_SIZE != 0)
            },
    decreases level,
{
    if level > 0 {
        let a = entry_addr(table, vaddr, level);
        let entry = mem(a);
        if entry & 1 != 0 && !(entry & Perm::PAGE_SIZE != 0 || level == 1) {
            lemma_walk_leaf_entry((level - 1) as u8, entry & pa_mask(), vaddr, mem);
        }
    }
}

/// What holds of a walk's outcome whatever `fetch` returns: an address
/// too wide for the tree is refused exactly when the stage is second and `vaddr` has bits above the top level; a missing
/// entry is reported at a level of the tree; a leaf lies at a level of the
/// tree, is huge exactly above level 1, keeps the page offset of `vaddr`,
/// and carries every bit of `vaddr` below its level's shift.
pub open spec fn walk_outcome(
    too_wide: bool,
    levels: u8,
    vaddr: u64,
    r: Result<WalkResult, WalkError>,
) -> bool {
    match r {
        Err(WalkError::AddressTooLarge { bits }) => too_wide && bits == address_bits(levels),
        Err(WalkError::NotPresent { level }) => !too_wide && 1 <= level <= levels,
        Ok(w) => {
            &&& !too_wide
            &&& 1 <= w.level <= levels
            &&& w.huge == (w.level > 1)
            &&& w.physical & 0xfff == vaddr & 0xfff
            &&& w.physical & (vaddr & low_mask(level_shift(w.level))) == vaddr & low_mask(
                level_shift(w.level),
            )
        },
    }
}

/// The page offset and the bits below a leaf's shift survive into the
/// physical address.
proof fn lemma_leaf_offset(entry: u64, vaddr: u64, s: u64)
    by (bit_vector)
    requires
        12 <= s < 64,
    ensures
        ((entry & 0x000f_ffff_ffff_f000) | (vaddr & low_mask(s))) & 0xfff == vaddr & 0xfff,
        ((entry & 0x000f_ffff_ffff_f000) | (vaddr & low_mask(s))) & (vaddr & low_mask(s)) == vaddr
            & low_mask(s),
{
}

/// Walk a first- or second-stage page table for `vaddr`.
///
/// `levels` is the number of table levels (1..=5, usually 4 or 5); `root`
/// is the physical address of the top-level table. `fetch` receives the
/// address of the *entry* (table base plus eight times the index).
/// Whatever memory `fetch` reads, the result is the walk over that memory.
pub fn walk<F>(stage: Stage, levels: u8, root: u64, vaddr: u64, fetch: &F) -> (r: Result<
    WalkResult,
    WalkError,
>) where F: Fn(u64) -> u64
    requires
        1 <= levels <= 5,
        forall|a: u64| call_requires(*fetch, (a,)),
        (stage == Stage::Second && (vaddr >> address_bits(levels)) != 0) || root + 8 * level_index(
            vaddr,
            levels,
        ) <= u64::MAX,
    ensures
        forall|mem: spec_fn(u64) -> u64|
            reads_as(*fetch, mem) ==> r == #[trigger] walk_spec(stage, levels, root, vaddr, mem),
        walk_outcome((stage == Stage::Second && (vaddr >> address_bits(levels)) != 0), levels, vaddr, r),
        r matches Ok(w) ==> exists|a: u64, v: u64|
            #![trigger call_ensures(*fetch, (a,), v)]
            {
                &&& call_ensures(*fetch, (a,), v)
                &&& v & 1 != 0
                &&& w.perms == Perm(v & Perm::ALL)
                &&& w.physical == (v & pa_mask()) | (vaddr & low_mask(level_shift(w.level)))
            },
{
    let top_shift: u64 = 9 * (levels as u64) + 3;
    let addr_bits: u64 = top_shift + 9;
    if vaddr >> addr_bits != 0 && stage == Stage::Second {
        return Err(WalkError::AddressTooLarge { bits: addr_bits as u32 });
    }
    let mut table = root;
    let mut level = levels;
    loop
        invariant
            1 <= level <= levels <= 5,
            forall|a: u64| call_requires(*fetch, (a,)),
            !((stage == Stage::Second && (vaddr >> address_bits(levels)) != 0)),
            table + 8 * level_index(vaddr, level) <= u64::MAX,
            forall|mem: spec_fn(u64) -> u64|
                reads_as(*fetch, mem) ==> #[trigger] walk_spec(stage, levels, root, vaddr, mem)
                    == walk_from(level, table, vaddr, mem),
        decreases level,
    {
        let shift: u8 = 9 * level + 3;
        let index = extract_bits(vaddr, shift + 8, shift);
        proof {
            lemma_low_mask_values();
            lemma_low_mask_bounds(vaddr >> (shift as u64), 0, 9);
        }
        let addr = table + index * 8;
        let entry = fetch(addr);
        if entry & 1 == 0 {
            return Err(WalkError::NotPresent { level });
        }
        let perms = Perm::from_bits_truncate(entry);
        let ps = entry & Perm::PAGE_SIZE != 0;
        if ps || level == 1 {
            let base = entry & 0x000f_ffff_ffff_f000;
            let off_mask = (1u64 << (shift as u64)) - 1;
            proof {
                assert(off_mask == low_mask(shift as u64));
                lemma_leaf_offset(entry, vaddr, shift as u64);
            }
            return Ok(WalkResult { physical: base | (vaddr & off_mask), level, perms, huge: ps && level > 1 });
        }
        proof {
            lemma_and_bounds(entry, 0x000f_ffff_ffff_f000);
            lemma_low_mask_bounds(vaddr >> level_shift((level - 1) as u8), 0, 9);
        }
        table = entry & 0x000f_ffff_ffff_f000;
        level = level - 1;
    }
}

/// A second-stage page-table entry (`SS-PTE` / `SS-PDE` …).
#[derive(Copy, Clone, Debug, Default, PartialEq, Eq, Structural)]
pub struct SecondStagePte(pub u64);

impl SecondStagePte {
    /// Raw value of the not-present entry.
    pub const EMPTY: u64 = 0;

    /// Build a present leaf entry mapping `paddr` (4 KiB aligned) with the
    /// read, write and execute bits of `perms` (the present bit is read).
    pub fn page(paddr: u64, perms: Perm) -> (r: Self)
        ensures
            r == SecondStagePte((paddr & pa_mask()) | (perms.0 & 0x7) | 1),
    {
        SecondStagePte((paddr & 0x000f_ffff_ffff_f000) | (perms.bits() & 0x7) | 1)
    }

    /// Build a present next-level (non-leaf) entry pointing at `next`,
    /// with read, write and execute allowed.
    pub fn table(next: u64) -> (r: Self)
        ensures
            r == SecondStagePte((next & pa_mask()) | Perm::RWX | 1),
    {
        SecondStagePte((next & 0x000f_ffff_ffff_f000) | Perm::RWX | 1)
    }

    /// Build a present huge-page (leaf above level 1) entry.
    pub fn huge_page(paddr: u64, perms: Perm) -> (r: Self)
        ensures
            r == SecondStagePte((paddr & pa_mask()) | (perms.0 & 0x3) | Perm::PAGE_SIZE | 1),
    {
        SecondStagePte((paddr & 0x000f_ffff_ffff_f000) | (perms.bits() & 0x3) | Perm::PAGE_SIZE | 1)
    }

    /// Raw entry value.
    #[verifier::allow_in_spec]
    pub fn bits(self) -> u64
        returns
            self.0,
    {
        self.0
    }

    /// Present flag (bit 0).
    #[verifier::allow_in_spec]
    pub fn present(self) -> bool
        returns
            self.0 & 1 != 0,
    {
        self.0 & 1 != 0
    }

    /// Permissions (the named bits of the entry).
    #[verifier::allow_in_spec]
    pub fn perms(self) -> Perm
        returns
            Perm(self.0 & Perm::ALL),
    {
        Perm::from_bits_truncate(self.0)
    }

    /// Physical frame address (bits 51:12, in place).
    #[verifier::allow_in_spec]
    pub fn frame(self) -> u64
        returns
            self.0 & pa_mask(),
    {
        self.0 & 0x000f_ffff_ffff_f000
    }

    /// Mark accessed and/or dirty (bits already set stay set).
    pub fn with_accessed_dirty(self, accessed: bool, dirty: bool) -> (r: Self)
        ensures
            r == SecondStagePte(
                self.0 | (if accessed {
                    Perm::ACCESSED
                } else {
                    0
                }) | (if dirty {
                    Perm::DIRTY
                } else {
                    0
                }),
            ),
    {
        let a: u64 = if accessed {
            Perm::ACCESSED
        } else {
            0
        };
        let d: u64 = if dirty {
            Perm::DIRTY
        } else {
            0
        };
        SecondStagePte(self.0 | a | d)
    }
}

/// Facts about leaf entries.
proof fn lemma_leaf_bits(paddr: u64, p: u64)
    by (bit_vector)
    ensures
        ((paddr & 0x000f_ffff_ffff_f000) | (p & 0x7) | 1) & 1 != 0,
        ((paddr & 0x000f_ffff_ffff_f000) | (p & 0x7) | 1) & 0x000f_ffff_ffff_f000 == paddr
            & 0x000f_ffff_ffff_f000,
        (((paddr & 0x000f_ffff_ffff_f000) | (p & 0x7) | 1) & 0x8000_0000_0000_0787) & 0x7 == (p
            & 0x7) | 1,
        (((paddr & 0x000f_ffff_ffff_f000) | (p & 0x7) | 1) & 0x8000_0000_0000_0787) & 0x80 == 0,
{
}

/// Law: a leaf built by [`SecondStagePte::page`] is present, maps the
/// 4 KiB frame of `paddr`, carries the read bit and the asked write and
/// execute bits, and is no huge page.
pub proof fn lemma_page_entry(paddr: u64, perms: Perm)
    ensures
        SecondStagePte((paddr & pa_mask()) | (perms.0 & 0x7) | 1).present(),
        SecondStagePte((paddr & pa_mask()) | (perms.0 & 0x7) | 1).frame() == paddr & pa_mask(),
        SecondStagePte((paddr & pa_mask()) | (perms.0 & 0x7) | 1).perms().0 & 0x7 == (perms.0 & 0x7)
            | 1,
        SecondStagePte((paddr & pa_mask()) | (perms.0 & 0x7) | 1).perms().0 & 0x80 == 0,
{
    lemma_leaf_bits(paddr, perms.0);
}

/// Index of `vaddr` in the table at `level` (1..=5), in 0..512.
pub fn index_at(vaddr: u64, level: u8) -> (r: usize)
    requires
        1 <= level <= 5,
    ensures
        r == level_index(vaddr, level),
        r < 512,
{
    proof {
        lemma_low_mask_values();
        lemma_low_mask_bounds(vaddr >> level_shift(level), 0, 9);
    }
    let shift: u8 = 9 * level + 3;
    extract_bits(vaddr, shift + 8, shift) as usize
}

/// A mapping request consumed by [`MapRange::leaves`].
#[derive(Copy, Clone, Debug, PartialEq, Eq, Structural)]
pub struct MapRange {
    /// Guest address to map (GVA for first-stage, GPA for second).
    pub guest_base: u64,
    /// Host physical base of the backing pages.
    pub host_base: u64,
    /// Number of bytes to map (rounded up to 4 KiB pages).
    pub len: u64,
    /// Leaf permissions.
    pub perms: Perm,
}

/// Number of 4 KiB pages needed for `len` bytes.
pub open spec fn pages_for(len: u64) -> int {
    (len as int + 4095) / 4096
}

impl MapRange {
    /// Number of 4 KiB leaf entries needed (the length rounded up).
    pub fn page_count(&self) -> (r: u64)
        ensures
            r == pages_for(self.len),
    {
        self.len / 4096 + if self.len % 4096 != 0 {
            1
        } else {
            0
        }
    }

    /// The `(guest_page, host_page, leaf_entry)` triple of page `i` of the
    /// mapping, without building the whole list: it maps
    /// `guest_base + i * 4096` to `host_base + i * 4096`.
    pub fn leaf(&self, i: u64) -> (r: (u64, u64, SecondStagePte))
        requires
            i < pages_for(self.len),
            self.guest_base + i * 4096 <= u64::MAX,
            self.host_base + i * 4096 <= u64::MAX,
        ensures
            r == (
                (self.guest_base + i * 4096) as u64,
                (self.host_base + i * 4096) as u64,
                SecondStagePte(
                    (((self.host_base + i * 4096) as u64) & pa_mask()) | (self.perms.0 & 0x7) | 1,
                ),
            ),
    {
        let g = self.guest_base + i * 4096;
        let h = self.host_base + i * 4096;
        (g, h, SecondStagePte::page(h, self.perms))
    }

    /// The `(guest_page, host_page, leaf_entry)` triples of the mapping:
    /// page `i` maps `guest_base + i * 4096` to `host_base + i * 4096`.
    /// Intermediate tables are the caller's.
    pub fn leaves(&self) -> (r: Vec<(u64, u64, SecondStagePte)>)
        requires
            pages_for(self.len) == 0 || self.guest_base + (pages_for(self.len) - 1) * 4096
                <= u64::MAX,
            pages_for(self.len) == 0 || self.host_base + (pages_for(self.len) - 1) * 4096
                <= u64::MAX,
        ensures
            r@.len() == pages_for(self.len),
            forall|i: int|
                0 <= i < r@.len() ==> #[trigger] r@[i] == (
                    (self.guest_base + i * 4096) as u64,
                    (self.host_base + i * 4096) as u64,
                    SecondStagePte(
                        (((self.host_base + i * 4096) as u64) & pa_mask()) | (self.perms.0 & 0x7) | 1,
                    ),
                ),
    {
        let pages = self.page_count();
        let mut out: Vec<(u64, u64, SecondStagePte)> = Vec::new();
        let mut i: u64 = 0;
        while i < pages
            invariant
                i <= pages,
                pages == pages_for(self.len),
                pages == 0 || self.guest_base + (pages - 1) * 4096 <= u64::MAX,
                pages == 0 || self.host_base + (pages - 1) * 4096 <= u64::MAX,
                out@.len() == i,
                forall|k: int|
                    0 <= k < i ==> #[trigger] out@[k] == (
                        (self.guest_base + k * 4096) as u64,
                        (self.host_base + k * 4096) as u64,
                        SecondStagePte(
                            (((self.host_base + k * 4096) as u64) & pa_mask()) | (self.perms.0
                                & 0x7) | 1,
                        ),
                    ),
            decreases pages - i,
        {
            let g = self.guest_base + i * 4096;
            let h = self.host_base + i * 4096;
            out.push((g, h, SecondStagePte::page(h, self.perms)));
            i += 1;
        }
        out
    }
}

/// Build one first-stage leaf entry for `paddr` in the Intel-64 layout:
/// present (bit 0), accessed (bit 5) and dirty (bit 6), writable (bit 1)
/// and user-accessible (bit 2) as asked.
pub fn first_stage_leaf(paddr: u64, user: bool, writable: bool) -> (r: u64)
    ensures
        r == (paddr & pa_mask()) | 0x60 | 1 | (if writable {
            Perm::W
        } else {
            0
        }) | (if user {
            Perm::X
        } else {
            0
        }),
{
    let mut v = (paddr & 0x000f_ffff_ffff_f000) | 0x60 | 1;
    if writable {
        v = v | Perm::W;
    } else {
        v = v | 0;
    }
    if user {
        v = v | Perm::X;
    } else {
        v = v | 0;
    }
    v
}

} // verus!
