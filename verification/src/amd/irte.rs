//! Interrupt remapping table entry (IRTE), basic 128-bit format.
//!
//! The device table points at the table via `IV` / `IntTabLen` / interrupt
//! table root pointer. Interrupts whose IRTE is not valid are blocked.
use vstd::prelude::*;

use crate::bytes::{le32_at, zc_read_le_u32};

verus! {

/// One interrupt remapping table entry (basic format, 128 bits).
///
/// * dword 0: bits 15:0 destination id (low part).
/// * dword 1: bits 7:0 destination id (high part), bit 16 valid (`V`).
/// * dword 2: bits 7:0 vector.
/// * dword 3: reserved.
#[derive(Copy, Clone, Debug, Default, PartialEq, Eq, Structural)]
pub struct Irte {
    /// Dword 0.
    pub d0: u32,
    /// Dword 1.
    pub d1: u32,
    /// Dword 2.
    pub d2: u32,
    /// Dword 3.
    pub d3: u32,
}

/// Facts about the masks the entry combines.
proof fn lemma_irte_bits(d0: u32, d1: u32, d2: u32, v: u32, dst: u32, vector: u8)
    by (bit_vector)
    requires
        v <= 1,
    ensures
        ((d1 & 0xfffe_ffff) | (v << 16)) & (1u32 << 16) != 0 <==> v == 1,
        (((d0 & 0xffff_0000) | (dst & 0xffff)) & 0xffff) | ((((d1 & 0xffff_ff00) | ((dst >> 16)
            & 0xff)) & 0xff) << 16) == dst & 0xff_ffff,
        (((d2 & 0xffff_ff00) | vector as u32) as u8) == vector,
        ((d1 & 0xffff_ff00) | ((dst >> 16) & 0xff)) & (1u32 << 16) == d1 & (1u32 << 16),
{
}

impl Irte {
    /// A zeroed entry.
    pub fn new() -> (r: Self)
        ensures
            r == (Irte { d0: 0, d1: 0, d2: 0, d3: 0 }),
    {
        Irte { d0: 0, d1: 0, d2: 0, d3: 0 }
    }

    /// Valid flag (dword 1 bit 16).
    #[verifier::allow_in_spec]
    pub fn valid(&self) -> bool
        returns
            self.d1 & (1u32 << 16) != 0,
    {
        self.d1 & (1u32 << 16) != 0
    }

    /// Set the valid flag.
    pub fn with_valid(self, v: bool) -> (r: Self)
        ensures
            r == (Irte { d1: (self.d1 & 0xfffe_ffff) | ((if v { 1u32 } else { 0u32 }) << 16), ..self }),
            r.valid() == v,
    {
        let b: u32 = if v { 1 } else { 0 };
        proof {
            lemma_irte_bits(self.d0, self.d1, self.d2, b, 0, 0);
        }
        Irte { d1: (self.d1 & 0xfffe_ffff) | (b << 16), ..self }
    }

    /// Destination id: dword 0 bits 15:0 hold its bits 15:0 and dword 1
    /// bits 7:0 its bits 23:16.
    #[verifier::allow_in_spec]
    pub fn destination(&self) -> u32
        returns
            (self.d0 & 0xffff) | ((self.d1 & 0xff) << 16),
    {
        (self.d0 & 0xffff) | ((self.d1 & 0xff) << 16)
    }

    /// Set the destination id; its bits 23:0 are stored, and the valid flag
    /// is left as it was.
    pub fn with_destination(self, dst: u32) -> (r: Self)
        ensures
            r == (Irte {
                d0: (self.d0 & 0xffff_0000) | (dst & 0xffff),
                d1: (self.d1 & 0xffff_ff00) | ((dst >> 16) & 0xff),
                ..self
            }),
            r.destination() == dst & 0xff_ffff,
            r.valid() == self.valid(),
    {
        proof {
            lemma_irte_bits(self.d0, self.d1, self.d2, 0, dst, 0);
        }
        Irte {
            d0: (self.d0 & 0xffff_0000) | (dst & 0xffff),
            d1: (self.d1 & 0xffff_ff00) | ((dst >> 16) & 0xff),
            ..self
        }
    }

    /// Interrupt vector (dword 2 bits 7:0).
    #[verifier::allow_in_spec]
    pub fn vector(&self) -> u8
        returns
            self.d2 as u8,
    {
        self.d2 as u8
    }

    /// Set the interrupt vector.
    pub fn with_vector(self, vector: u8) -> (r: Self)
        ensures
            r == (Irte { d2: (self.d2 & 0xffff_ff00) | vector as u32, ..self }),
            r.vector() == vector,
    {
        proof {
            lemma_irte_bits(self.d0, self.d1, self.d2, 0, 0, vector);
        }
        Irte { d2: (self.d2 & 0xffff_ff00) | vector as u32, ..self }
    }

    /// Raw words.
    pub fn words(&self) -> (r: [u32; 4])
        ensures
            r@ == seq![self.d0, self.d1, self.d2, self.d3],
    {
        [self.d0, self.d1, self.d2, self.d3]
    }

    /// Interpret the first 16 bytes of `bytes` as an IRTE of four
    /// little-endian dwords; `None` when `bytes` is too short.
    pub fn from_bytes(bytes: &[u8]) -> (r: Option<Irte>)
        ensures
            r == if bytes@.len() >= 16 {
                Some(
                    Irte {
                        d0: le32_at(bytes@, 0),
                        d1: le32_at(bytes@, 4),
                        d2: le32_at(bytes@, 8),
                        d3: le32_at(bytes@, 12),
                    },
                )
            } else {
                None::<Irte>
            },
    {
        if bytes.len() < 16 {
            return None;
        }
        let d0 = zc_read_le_u32(&bytes[0..4]);
        let d1 = zc_read_le_u32(&bytes[4..8]);
        let d2 = zc_read_le_u32(&bytes[8..12]);
        let d3 = zc_read_le_u32(&bytes[12..16]);
        match (d0, d1, d2, d3) {
            (Some(d0), Some(d1), Some(d2), Some(d3)) => Some(Irte { d0, d1, d2, d3 }),
            _ => None,
        }
    }
}

} // verus!
