//! Little-endian byte images of words, and reads of little-endian integers
//! out of byte buffers.
use vstd::prelude::*;

verus! {

/// Byte `k` (0 = least significant) of a 64-bit word.
pub open spec fn le_byte(w: u64, k: int) -> u8 {
    (w >> (8 * k) as u64) as u8
}

/// The little-endian image of the words `ws`: byte `i` is byte `i % 8` of
/// word `i / 8`.
pub open spec fn le_image(ws: Seq<u64>, bytes: Seq<u8>) -> bool {
    &&& bytes.len() == 8 * ws.len()
    &&& forall|i: int| 0 <= i < bytes.len() ==> #[trigger] bytes[i] == le_byte(ws[i / 8], i % 8)
}

/// Little-endian 16-bit value of `b[off..off + 2]`.
pub open spec fn le16_at(b: Seq<u8>, off: int) -> u16 {
    ((b[off] as u16) | ((b[off + 1] as u16) << 8)) as u16
}

/// Little-endian 32-bit value of `b[off..off + 4]`.
pub open spec fn le32_at(b: Seq<u8>, off: int) -> u32 {
    (b[off] as u32) | ((b[off + 1] as u32) << 8) | ((b[off + 2] as u32) << 16) | ((b[off
        + 3] as u32) << 24)
}

/// Little-endian 64-bit value of `b[off..off + 8]`.
pub open spec fn le64_at(b: Seq<u8>, off: int) -> u64 {
    (le32_at(b, off) as u64) | ((le32_at(b, off + 4) as u64) << 32)
}

/// Law: eight bytes that are the little-endian bytes of `w` read back as
/// `w`.
pub proof fn lemma_le64_read_back(w: u64, b: Seq<u8>, off: int)
    requires
        0 <= off,
        off + 8 <= b.len(),
        forall|k: int| 0 <= k < 8 ==> #[trigger] b[off + k] == le_byte(w, k),
    ensures
        le64_at(b, off) == w,
{
    let b0 = b[off];
    let b1 = b[off + 1];
    let b2 = b[off + 2];
    let b3 = b[off + 3];
    let b4 = b[off + 4];
    let b5 = b[off + 5];
    let b6 = b[off + 6];
    let b7 = b[off + 7];
    assert(b[off + 0] == le_byte(w, 0));
    assert(b[off + 1] == le_byte(w, 1));
    assert(b[off + 2] == le_byte(w, 2));
    assert(b[off + 3] == le_byte(w, 3));
    assert(b[off + 4] == le_byte(w, 4));
    assert(b[off + 5] == le_byte(w, 5));
    assert(b[off + 6] == le_byte(w, 6));
    assert(b[off + 7] == le_byte(w, 7));
    assert(((((b0 as u32) | ((b1 as u32) << 8) | ((b2 as u32) << 16) | ((b3 as u32) << 24)) as u64)
        | ((((b4 as u32) | ((b5 as u32) << 8) | ((b6 as u32) << 16) | ((b7 as u32) << 24)) as u64)
        << 32)) == w) by (bit_vector)
        requires
            b0 == (w >> 0u64) as u8,
            b1 == (w >> 8u64) as u8,
            b2 == (w >> 16u64) as u8,
            b3 == (w >> 24u64) as u8,
            b4 == (w >> 32u64) as u8,
            b5 == (w >> 40u64) as u8,
            b6 == (w >> 48u64) as u8,
            b7 == (w >> 56u64) as u8,
    ;
}

/// Law: the little-endian image of a list of words reads back, word by
/// word, as the same words.
pub proof fn lemma_le_image_read_back(ws: Seq<u64>, bytes: Seq<u8>)
    requires
        le_image(ws, bytes),
    ensures
        forall|i: int| 0 <= i < ws.len() ==> #[trigger] le64_at(bytes, 8 * i) == ws[i],
{
    assert forall|i: int| 0 <= i < ws.len() implies #[trigger] le64_at(bytes, 8 * i) == ws[i] by {
        assert forall|k: int| 0 <= k < 8 implies #[trigger] bytes[8 * i + k] == le_byte(ws[i], k) by {
            assert((8 * i + k) / 8 == i && (8 * i + k) % 8 == k) by (nonlinear_arith)
                requires
                    0 <= k < 8,
                    0 <= i,
            ;
            assert(8 * i + k < bytes.len()) by (nonlinear_arith)
                requires
                    0 <= k < 8,
                    i < ws.len(),
                    bytes.len() == 8 * ws.len(),
            ;
        }
        assert(8 * i + 8 <= bytes.len()) by (nonlinear_arith)
            requires
                0 <= i < ws.len(),
                bytes.len() == 8 * ws.len(),
        ;
        lemma_le64_read_back(ws[i], bytes, 8 * i);
    }
}

/// Read the little-endian `u16` at `off`.
pub fn read_le16(b: &[u8], off: usize) -> (r: u16)
    requires
        off + 2 <= b@.len(),
    ensures
        r == le16_at(b@, off as int),
{
    (b[off] as u16) | ((b[off + 1] as u16) << 8)
}

/// Read the little-endian `u32` at `off`.
pub fn read_le32(b: &[u8], off: usize) -> (r: u32)
    requires
        off + 4 <= b@.len(),
    ensures
        r == le32_at(b@, off as int),
{
    (b[off] as u32) | ((b[off + 1] as u32) << 8) | ((b[off + 2] as u32) << 16) | ((b[off
        + 3] as u32) << 24)
}

/// Read the little-endian `u64` at `off`.
pub fn read_le64(b: &[u8], off: usize) -> (r: u64)
    requires
        off + 8 <= b@.len(),
    ensures
        r == le64_at(b@, off as int),
{
    let _len = b.len();
    let lo = read_le32(b, off);
    let hi = read_le32(b, off + 4);
    (lo as u64) | ((hi as u64) << 32)
}

/// Decode exactly eight bytes as a little-endian `u64` with
/// `zerocopy::FromBytes::read_from_bytes` for `zerocopy::little_endian::U64`
/// followed by `U64::get`. The contract claims what zerocopy documents:
/// the read fails exactly when the length differs from the size of the type
/// (eight bytes), and otherwise yields the little-endian value of the bytes.
#[verifier::external_body]
pub(crate) fn zc_read_le_u64(b: &[u8]) -> (r: Option<u64>)
    ensures
        r == if b@.len() == 8 {
            Some(le64_at(b@, 0))
        } else {
            None::<u64>
        },
{
    match <zerocopy::little_endian::U64 as zerocopy::FromBytes>::read_from_bytes(b) {
        Ok(v) => Some(v.get()),
        Err(_) => None,
    }
}

/// Decode exactly four bytes as a little-endian `u32` with
/// `zerocopy::FromBytes::read_from_bytes` for `zerocopy::little_endian::U32`
/// followed by `U32::get`. The contract claims what zerocopy documents:
/// the read fails exactly when the length differs from four bytes, and
/// otherwise yields the little-endian value of the bytes.
#[verifier::external_body]
pub(crate) fn zc_read_le_u32(b: &[u8]) -> (r: Option<u32>)
    ensures
        r == if b@.len() == 4 {
            Some(le32_at(b@, 0))
        } else {
            None::<u32>
        },
{
    match <zerocopy::little_endian::U32 as zerocopy::FromBytes>::read_from_bytes(b) {
        Ok(v) => Some(v.get()),
        Err(_) => None,
    }
}

/// Sum of the bytes of `s`.
pub open spec fn byte_sum(s: Seq<u8>) -> nat
    decreases s.len(),
{
    if s.len() == 0 {
        0
    } else {
        byte_sum(s.drop_last()) + (s.last() as nat)
    }
}

/// The ACPI checksum rule: the bytes add up to zero modulo 256.
pub open spec fn checksum_ok(s: Seq<u8>) -> bool {
    byte_sum(s) % 256 == 0
}

/// Add the bytes of `s` with wrapping arithmetic.
pub fn wrapping_byte_sum(s: &[u8]) -> (r: u8)
    ensures
        r == byte_sum(s@) % 256,
{
    let mut acc: u8 = 0;
    let mut i: usize = 0;
    while i < s.len()
        invariant
            i <= s@.len(),
            acc == byte_sum(s@.subrange(0, i as int)) % 256,
        decreases s@.len() - i,
    {
        proof {
            assert(s@.subrange(0, i as int + 1).drop_last() == s@.subrange(0, i as int));
        }
        acc = acc.wrapping_add(s[i]);
        i += 1;
    }
    proof {
        assert(s@.subrange(0, s@.len() as int) == s@);
    }
    acc
}

} // verus!
