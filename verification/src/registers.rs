//! Register map and address-byte construction.
//!
//! The chip documents its registers as "natural" byte values (seconds at
//! 0x80, minutes at 0x82, ...), with the low bit reserved as the
//! read/write flag.  What actually travels on the bus is the bit-reversal
//! of that natural byte.

use vstd::prelude::*;

use crate::bits::{reverse_bits, spec_reverse_bits};

verus! {

/// Read/write direction flag, in natural (pre-reversal) bit order: set
/// for a read, clear for a write.
pub const READ_FLAG: u8 = 0x01;

/// The chip's registers, named after the register map.
#[derive(Clone, Copy, Debug, PartialEq, Eq, Structural)]
pub enum Register {
    Seconds,
    Minutes,
    Hours,
    Date,
    Month,
    Day,
    Year,
    WriteProtect,
    /// Reads or writes all seven time/date registers and the
    /// write-protect register in one fixed-order transfer.
    ClockBurst,
    Ram,
    RamBurst,
}

impl Register {
    /// The register's natural address byte, as the chip's register map
    /// documents it (write form, read flag clear).
    pub open spec fn spec_natural(self) -> u8 {
        match self {
            Register::Seconds => 0x80,
            Register::Minutes => 0x82,
            Register::Hours => 0x84,
            Register::Date => 0x86,
            Register::Month => 0x88,
            Register::Day => 0x8A,
            Register::Year => 0x8C,
            Register::WriteProtect => 0x8E,
            Register::ClockBurst => 0xBE,
            Register::Ram => 0xC0,
            Register::RamBurst => 0xFE,
        }
    }

    /// Return the register's natural address byte.
    pub fn natural(self) -> (r: u8)
        ensures
            r == self.spec_natural(),
    {
        match self {
            Register::Seconds => 0x80,
            Register::Minutes => 0x82,
            Register::Hours => 0x84,
            Register::Date => 0x86,
            Register::Month => 0x88,
            Register::Day => 0x8A,
            Register::Year => 0x8C,
            Register::WriteProtect => 0x8E,
            Register::ClockBurst => 0xBE,
            Register::Ram => 0xC0,
            Register::RamBurst => 0xFE,
        }
    }
}

/// The address byte that is transmitted for `reg`: the read flag is ORed
/// in first (in natural bit order), then the whole byte is bit-reversed
/// so the flag lands in the bit position the chip samples.
pub open spec fn spec_make_address(reg: Register, is_read: bool) -> u8 {
    spec_reverse_bits(reg.spec_natural() | if is_read { READ_FLAG } else { 0 })
}

/// Build the on-wire address byte for `reg`.
pub fn make_address(reg: Register, is_read: bool) -> (r: u8)
    ensures
        r == spec_make_address(reg, is_read),
{
    let flagged: u8 = reg.natural() | if is_read { READ_FLAG } else { 0 };
    reverse_bits(flagged)
}

} // verus!
