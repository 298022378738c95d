//! Bit-order reversal.
//!
//! The DS1302 shifts bytes onto the bus least-significant bit first while
//! the host controller shifts most-significant bit first, so every byte
//! exchanged with the chip — address bytes and data bytes alike — is the
//! bit-reversal of the value the chip's register map documents.

use vstd::prelude::*;

verus! {

/// The value of `b` with its eight bits in the opposite order: bit 0 of
/// `b` becomes bit 7 of the result, bit 1 becomes bit 6, and so on.
pub open spec fn spec_reverse_bits(b: u8) -> u8 {
    ((b & 0x01) << 7) | ((b & 0x02) << 5) | ((b & 0x04) << 3) | ((b & 0x08) << 1)
        | ((b & 0x10) >> 1) | ((b & 0x20) >> 3) | ((b & 0x40) >> 5) | ((b & 0x80) >> 7)
}

/// Reversing twice gives the original byte back, so the same primitive
/// serves both the encode and the decode path.
pub proof fn lemma_reverse_bits_involutive(b: u8)
    by (bit_vector)
    ensures
        spec_reverse_bits(spec_reverse_bits(b)) == b,
{
}

/// Reverse the bit order of one byte.
pub fn reverse_bits(b: u8) -> (r: u8)
    ensures
        r == spec_reverse_bits(b),
{
    ((b & 0x01) << 7) | ((b & 0x02) << 5) | ((b & 0x04) << 3) | ((b & 0x08) << 1)
        | ((b & 0x10) >> 1) | ((b & 0x20) >> 3) | ((b & 0x40) >> 5) | ((b & 0x80) >> 7)
}

} // verus!
