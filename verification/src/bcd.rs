//! Binary-coded decimal codec.
//!
//! The DS1302 stores every time and date register as two packed decimal
//! digits: the tens digit in the high nibble, the units digit in the low
//! nibble.  The two conversions here are exact inverses on 0–99.

use vstd::prelude::*;

verus! {

/// Packed-BCD encoding of `v`: tens digit in the high nibble, units digit
/// in the low nibble.  Meaningful for `v <= 99`; a larger value overflows
/// the tens nibble, which the chip leaves undefined.
pub open spec fn spec_decimal_to_bcd(v: u8) -> u8 {
    (((v / 10) << 4) + (v % 10)) as u8
}

/// Decimal value of the packed-BCD byte `b`: high nibble times ten plus
/// low nibble.  A nibble above 9 is no valid BCD digit and yields a value
/// above 99; the result is not validated, matching the chip's behaviour.
pub open spec fn spec_bcd_to_decimal(b: u8) -> u8 {
    (((b & 0xF0) >> 4) * 10 + (b & 0x0F)) as u8
}

/// Decoding an encoded value gives the value back, for every decimal
/// value a register can represent.
pub proof fn lemma_bcd_round_trip(v: u8)
    by (bit_vector)
    requires
        v <= 99,
    ensures
        spec_bcd_to_decimal(spec_decimal_to_bcd(v)) == v,
{
}

/// Convert a decimal value 0–99 to packed BCD.  A value above 99 is not
/// rejected — the caller must pre-validate the range — but its encoding
/// carries a truncated tens nibble.
pub fn decimal_to_bcd(decimal: u8) -> (r: u8)
    ensures
        decimal <= 99 ==> r == spec_decimal_to_bcd(decimal),
{
    proof {
        assert(((decimal / 10) << 4) + (decimal % 10) < 256) by (bit_vector);
    }
    ((decimal / 10) << 4) + (decimal % 10)
}

/// Convert a packed-BCD byte to its decimal value.
pub fn bcd_to_decimal(bcd: u8) -> (r: u8)
    ensures
        r == spec_bcd_to_decimal(bcd),
{
    proof {
        assert(((bcd & 0xF0) >> 4) * 10 + (bcd & 0x0F) < 256) by (bit_vector);
    }
    ((bcd & 0xF0) >> 4) * 10 + (bcd & 0x0F)
}

} // verus!
