//! Shared bit-extraction helper.
use vstd::prelude::*;

use crate::bitfield::{field, get_field};

verus! {

/// Extract bits `hi..=lo` (inclusive, `lo` = least significant) from `value`,
/// right-aligned.
#[verifier::allow_in_spec]
pub fn extract_bits(value: u64, hi: u8, lo: u8) -> u64
    requires
        lo <= hi,
        hi - lo < 64,
        lo < 64,
    returns
        field(value, lo as u64, (hi - lo + 1) as u64),
{
    let width: u8 = hi - lo + 1;
    get_field(value, lo as u64, width as u64)
}

} // verus!
