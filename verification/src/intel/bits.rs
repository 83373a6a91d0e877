//! Bit-extraction helpers shared by the register and structure decoders.
use vstd::prelude::*;

use crate::bitfield::{field, get_field};

verus! {

/// Extract bits `hi..=lo` (inclusive, `lo` = least significant) from `value`.
///
/// The result is right-aligned. `hi - lo` must be `< 64`.
#[verifier::allow_in_spec]
pub fn extract_bits(value: u64, hi: u8, lo: u8) -> u64
    requires
        lo <= hi,
        hi - lo < 64,
        lo < 64,
    returns
        field(value, lo as u64, (hi - lo + 1) as u64),
{
    let width: u8 = hi - lo + 1;
    get_field(value, lo as u64, width as u64)
}

/// Number of significant bits in `hi..=lo`.
pub fn bits_of(hi: u8, lo: u8) -> (r: u32)
    requires
        lo <= hi,
        hi - lo < 255,
    ensures
        r == hi - lo + 1,
{
    (hi - lo + 1) as u32
}

} // verus!
