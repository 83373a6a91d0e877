//! Bit-field vocabulary shared by every register and table-entry decoder.
//!
//! A hardware field is described by its least significant bit `lo` and its
//! `width`. [`field`] reads such a field right-aligned, [`with_field`]
//! replaces it, and [`flag`] / [`with_flag`] are the one-bit special cases.
//! The executable helpers below compute exactly these spec functions, and
//! the proof functions state the laws that make setters and getters agree.
use vstd::prelude::*;

verus! {

/// `width` low bits set (all 64 bits for `width >= 64`).
pub open spec fn low_mask(width: u64) -> u64 {
    if width >= 64 {
        0xffff_ffff_ffff_ffffu64
    } else {
        ((1u64 << width) - 1u64) as u64
    }
}

/// The `width`-bit field of `w` whose least significant bit is `lo`,
/// right-aligned.
pub open spec fn field(w: u64, lo: u64, width: u64) -> u64 {
    (w >> lo) & low_mask(width)
}

/// `w` with the `width`-bit field at `lo` replaced by the low bits of `v`.
pub open spec fn with_field(w: u64, lo: u64, width: u64, v: u64) -> u64 {
    (w & !(low_mask(width) << lo)) | ((v & low_mask(width)) << lo)
}

/// Bit `i` of `w`.
pub open spec fn flag(w: u64, i: u64) -> bool {
    field(w, i, 1) == 1
}

/// `0` or `1` for a boolean.
pub open spec fn bit_of(b: bool) -> u64 {
    if b {
        1
    } else {
        0
    }
}

/// `0` or `1` for a boolean, as a 32-bit word.
pub open spec fn bit32_of(b: bool) -> u32 {
    if b {
        1
    } else {
        0
    }
}

/// `w` with bit `i` set to `b`.
pub open spec fn with_flag(w: u64, i: u64, b: bool) -> u64 {
    with_field(w, i, 1, bit_of(b))
}

/// A field description fits in a 64-bit word.
pub open spec fn field_fits(lo: u64, width: u64) -> bool {
    1 <= width && lo < 64 && lo + width <= 64
}

/// Two fields of a 64-bit word do not overlap.
pub open spec fn fields_disjoint(lo1: u64, width1: u64, lo2: u64, width2: u64) -> bool {
    lo1 + width1 <= lo2 || lo2 + width2 <= lo1
}

/// The values of `low_mask` for every width, and the fact that a one
/// shifted by less than 64 is positive.
pub proof fn lemma_low_mask_values()
    ensures
        forall|k: u64| #![trigger (1u64 << k)] k < 64 ==> (1u64 << k) >= 1,
        low_mask(1) == 0x1,
        low_mask(2) == 0x3,
        low_mask(3) == 0x7,
        low_mask(4) == 0xf,
        low_mask(5) == 0x1f,
        low_mask(6) == 0x3f,
        low_mask(7) == 0x7f,
        low_mask(8) == 0xff,
        low_mask(9) == 0x1ff,
        low_mask(10) == 0x3ff,
        low_mask(12) == 0xfff,
        low_mask(16) == 0xffff,
        low_mask(18) == 0x3ffff,
        low_mask(20) == 0xf_ffff,
        low_mask(21) == 0x1f_ffff,
        low_mask(24) == 0xff_ffff,
        low_mask(26) == 0x3ff_ffff,
        low_mask(29) == 0x1fff_ffff,
        low_mask(32) == 0xffff_ffff,
        low_mask(34) == 0x3_ffff_ffff,
        low_mask(40) == 0xff_ffff_ffff,
        low_mask(46) == 0x3fff_ffff_ffff,
        low_mask(52) == 0xf_ffff_ffff_ffff,
        low_mask(64) == 0xffff_ffff_ffff_ffff,
{
    assert(forall|k: u64| #![trigger (1u64 << k)] k < 64 ==> (1u64 << k) >= 1) by (bit_vector);
    assert({
        &&& ((1u64 << 1u64) - 1u64) as u64 == 0x1
        &&& ((1u64 << 2u64) - 1u64) as u64 == 0x3
        &&& ((1u64 << 3u64) - 1u64) as u64 == 0x7
        &&& ((1u64 << 4u64) - 1u64) as u64 == 0xf
        &&& ((1u64 << 5u64) - 1u64) as u64 == 0x1f
        &&& ((1u64 << 6u64) - 1u64) as u64 == 0x3f
        &&& ((1u64 << 7u64) - 1u64) as u64 == 0x7f
        &&& ((1u64 << 8u64) - 1u64) as u64 == 0xff
        &&& ((1u64 << 9u64) - 1u64) as u64 == 0x1ff
        &&& ((1u64 << 10u64) - 1u64) as u64 == 0x3ff
        &&& ((1u64 << 12u64) - 1u64) as u64 == 0xfff
        &&& ((1u64 << 16u64) - 1u64) as u64 == 0xffff
        &&& ((1u64 << 18u64) - 1u64) as u64 == 0x3ffff
        &&& ((1u64 << 20u64) - 1u64) as u64 == 0xf_ffff
        &&& ((1u64 << 21u64) - 1u64) as u64 == 0x1f_ffff
        &&& ((1u64 << 24u64) - 1u64) as u64 == 0xff_ffff
        &&& ((1u64 << 26u64) - 1u64) as u64 == 0x3ff_ffff
        &&& ((1u64 << 29u64) - 1u64) as u64 == 0x1fff_ffff
        &&& ((1u64 << 32u64) - 1u64) as u64 == 0xffff_ffff
        &&& ((1u64 << 34u64) - 1u64) as u64 == 0x3_ffff_ffff
        &&& ((1u64 << 40u64) - 1u64) as u64 == 0xff_ffff_ffff
        &&& ((1u64 << 46u64) - 1u64) as u64 == 0x3fff_ffff_ffff
        &&& ((1u64 << 52u64) - 1u64) as u64 == 0xf_ffff_ffff_ffff
    }) by (bit_vector);
}

/// Law: a field reads back the low `width` bits of what was written into it.
pub proof fn lemma_field_with_field_same(w: u64, lo: u64, width: u64, v: u64)
    requires
        field_fits(lo, width),
    ensures
        field(with_field(w, lo, width, v), lo, width) == v & low_mask(width),
{
    assert(field(with_field(w, lo, width, v), lo, width) == v & low_mask(width)) by (bit_vector)
        requires
            1 <= width && lo < 64 && lo + width <= 64,
    ;
}

/// Law: writing one field leaves every disjoint field unchanged.
pub proof fn lemma_field_with_field_other(
    w: u64,
    lo: u64,
    width: u64,
    v: u64,
    lo2: u64,
    width2: u64,
)
    requires
        field_fits(lo, width),
        field_fits(lo2, width2),
        fields_disjoint(lo, width, lo2, width2),
    ensures
        field(with_field(w, lo, width, v), lo2, width2) == field(w, lo2, width2),
{
    assert(field(with_field(w, lo, width, v), lo2, width2) == field(w, lo2, width2))
        by (bit_vector)
        requires
            1 <= width && lo < 64 && lo + width <= 64,
            1 <= width2 && lo2 < 64 && lo2 + width2 <= 64,
            lo + width <= lo2 || lo2 + width2 <= lo,
    ;
}

/// Law: a field never exceeds its mask, and a value within the mask is
/// kept whole by masking.
pub proof fn lemma_low_mask_bounds(w: u64, v: u64, width: u64)
    requires
        1 <= width <= 64,
    ensures
        w & low_mask(width) <= low_mask(width),
        v <= low_mask(width) ==> v & low_mask(width) == v,
{
    assert(w & low_mask(width) <= low_mask(width)) by (bit_vector)
        requires
            1 <= width <= 64,
    ;
    assert(v <= low_mask(width) ==> v & low_mask(width) == v) by (bit_vector)
        requires
            1 <= width <= 64,
    ;
}

/// Masking with the low `k` bits keeps a value modulo `2^k`.
pub proof fn lemma_low_mask_mod(v: u64)
    ensures
        v & 0x1 == v % 2,
        v & 0x3 == v % 4,
        v & 0x7 == v % 8,
        v & 0xf == v % 16,
        v & 0x1f == v % 32,
        v & 0x3f == v % 64,
        v & 0xff == v % 256,
        v & 0xffff == v % 0x1_0000,
        v & 0xf_ffff == v % 0x10_0000,
{
    assert({
        &&& v & 0x1 == v % 2
        &&& v & 0x3 == v % 4
        &&& v & 0x7 == v % 8
        &&& v & 0xf == v % 16
        &&& v & 0x1f == v % 32
        &&& v & 0x3f == v % 64
        &&& v & 0xff == v % 256
        &&& v & 0xffff == v % 0x1_0000
        &&& v & 0xf_ffff == v % 0x10_0000
    }) by (bit_vector);
}

/// Law: a field reads back the low `width` bits of what was written, so a
/// value that fits is read back exactly.
pub proof fn lemma_field_roundtrip(w: u64, lo: u64, width: u64, v: u64)
    requires
        field_fits(lo, width),
    ensures
        field(with_field(w, lo, width, v), lo, width) == v & low_mask(width),
        v <= low_mask(width) ==> field(with_field(w, lo, width, v), lo, width) == v,
        field(with_field(w, lo, width, v), lo, width) <= low_mask(width),
{
    lemma_field_with_field_same(w, lo, width, v);
    lemma_low_mask_bounds(v, v, width);
    lemma_low_mask_values();
    lemma_low_mask_mod(v);
}

/// Law: a flag reads back what was written, and writing a flag leaves every
/// other bit unchanged.
pub proof fn lemma_flag_with_flag(w: u64, i: u64, b: bool, j: u64)
    requires
        i < 64,
        j < 64,
    ensures
        flag(with_flag(w, i, b), i) == b,
        j != i ==> flag(with_flag(w, i, b), j) == flag(w, j),
{
    lemma_field_with_field_same(w, i, 1, bit_of(b));
    lemma_low_mask_values();
    lemma_low_mask_bounds(w, bit_of(b), 1);
    if j != i {
        lemma_field_with_field_other(w, i, 1, bit_of(b), j, 1);
    }
}

/// Masking never makes a word larger than either operand.
pub proof fn lemma_and_bounds(x: u64, m: u64)
    ensures
        x & m <= m,
        x & m <= x,
{
    assert(x & m <= m && x & m <= x) by (bit_vector);
}

/// A flag is set exactly when masking with its single-bit mask keeps the
/// mask, or gives a non-zero word.
pub proof fn lemma_flag_mask(w: u64, i: u64)
    requires
        i < 64,
    ensures
        flag(w, i) <==> (w & (1u64 << i)) == (1u64 << i),
        flag(w, i) <==> (w & (1u64 << i)) != 0,
{
    assert((field(w, i, 1) == 1 <==> (w & (1u64 << i)) == (1u64 << i)) && (field(w, i, 1) == 1
        <==> (w & (1u64 << i)) != 0)) by (bit_vector)
        requires
            i < 64,
    ;
}

/// Read the `width`-bit field of `w` at `lo`.
#[verifier::allow_in_spec]
pub fn get_field(w: u64, lo: u64, width: u64) -> u64
    requires
        lo < 64,
        1 <= width <= 64,
    returns
        field(w, lo, width),
{
    proof {
        lemma_low_mask_values();
    }
    let mask: u64 = if width >= 64 {
        0xffff_ffff_ffff_ffff
    } else {
        (1u64 << width) - 1
    };
    (w >> lo) & mask
}

/// Replace the `width`-bit field of `w` at `lo` by the low bits of `v`.
#[verifier::allow_in_spec]
pub fn put_field(w: u64, lo: u64, width: u64, v: u64) -> u64
    requires
        lo < 64,
        1 <= width <= 64,
    returns
        with_field(w, lo, width, v),
{
    proof {
        lemma_low_mask_values();
    }
    let mask: u64 = if width >= 64 {
        0xffff_ffff_ffff_ffff
    } else {
        (1u64 << width) - 1
    };
    (w & !(mask << lo)) | ((v & mask) << lo)
}

/// Bit `i` of `w`.
#[verifier::allow_in_spec]
pub fn get_flag(w: u64, i: u64) -> bool
    requires
        i < 64,
    returns
        flag(w, i),
{
    get_field(w, i, 1) == 1
}

/// `w` with bit `i` set to `b`.
#[verifier::allow_in_spec]
pub fn put_flag(w: u64, i: u64, b: bool) -> u64
    requires
        i < 64,
    returns
        with_flag(w, i, b),
{
    put_field(w, i, 1, if b { 1 } else { 0 })
}

/// `0` or `1` for a boolean.
#[verifier::allow_in_spec]
pub fn bool_u64(b: bool) -> u64
    returns
        bit_of(b),
{
    if b {
        1
    } else {
        0
    }
}

/// `0` or `1` for a boolean, as a 32-bit word.
#[verifier::allow_in_spec]
pub fn bool_u32(b: bool) -> u32
    returns
        bit32_of(b),
{
    if b {
        1
    } else {
        0
    }
}

} // verus!
