//! Mathematical model of the chip and of the bus.
//!
//! [`ChipRegs`] holds the register file in natural (un-reversed) bit
//! order.  [`spec_apply_write`] and [`spec_response`] say what a bus
//! write does to the registers and what bytes a command/read transfer
//! returns, exactly as the chip's datasheet documents them: addresses and
//! data arrive bit-reversed, writes to time registers are ignored while
//! the write-protect flag is set, and burst transfers exchange the seven
//! time/date registers and the write-protect register in a fixed order.
//! [`BusOp`] records one bus transaction, so that contracts can state not
//! only the final register file but the exact sequence of operations a
//! driver call performs.

use vstd::prelude::*;

use crate::bits::spec_reverse_bits;
use crate::registers::{Register, READ_FLAG};

verus! {

/// The chip's register file, each byte in natural bit order.  Time and
/// date registers hold packed BCD; bit 7 of `seconds` is the clock-halt
/// flag and bit 7 of `write_protect` is the write-protect flag.
#[derive(Clone, Copy, Debug, PartialEq, Eq, Structural)]
#[verifier::ext_equal]
pub struct ChipRegs {
    pub seconds: u8,
    pub minutes: u8,
    pub hours: u8,
    pub date: u8,
    pub month: u8,
    pub day: u8,
    pub year: u8,
    pub write_protect: u8,
}

/// One transaction on the half-duplex bus: either a plain write of a
/// frame, or a transfer that sends command bytes and then reads back the
/// given number of response bytes.
pub enum BusOp {
    Write(Seq<u8>),
    Transfer(Seq<u8>, nat),
}

/// The write-protect flag: bit 7 of the write-protect register.  While it
/// is set the chip accepts no write to the time, date or RAM registers.
pub open spec fn spec_write_protected(c: ChipRegs) -> bool {
    c.write_protect & 0x80 != 0
}

/// The clock-halt flag: bit 7 of the raw seconds register.  While it is
/// set the oscillator is stopped and the seconds counter frozen.
pub open spec fn spec_halt_set(c: ChipRegs) -> bool {
    c.seconds & 0x80 != 0
}

/// The register file after the chip accepts the written frame `data`:
/// one on-wire address byte followed by on-wire data bytes.  A write to
/// the write-protect register always lands; any other write is ignored
/// while the write-protect flag is set.  A frame that matches no
/// supported register write leaves the registers unchanged.
pub open spec fn spec_apply_write(c: ChipRegs, data: Seq<u8>) -> ChipRegs {
    if data.len() < 2 {
        c
    } else {
        let addr = spec_reverse_bits(data[0]);
        if addr == Register::WriteProtect.spec_natural() && data.len() == 2 {
            ChipRegs { write_protect: spec_reverse_bits(data[1]), ..c }
        } else if spec_write_protected(c) {
            c
        } else if addr == Register::Seconds.spec_natural() && data.len() == 2 {
            ChipRegs { seconds: spec_reverse_bits(data[1]), ..c }
        } else if addr == Register::ClockBurst.spec_natural() && data.len() == 9 {
            ChipRegs {
                seconds: spec_reverse_bits(data[1]),
                minutes: spec_reverse_bits(data[2]),
                hours: spec_reverse_bits(data[3]),
                date: spec_reverse_bits(data[4]),
                month: spec_reverse_bits(data[5]),
                day: spec_reverse_bits(data[6]),
                year: spec_reverse_bits(data[7]),
                write_protect: spec_reverse_bits(data[8]),
            }
        } else {
            c
        }
    }
}

/// Byte `i` of a clock-burst read: the seven time/date registers in the
/// chip-defined order seconds, minutes, hours, date, month, day, year,
/// then the write-protect register, each bit-reversed for the wire.
pub open spec fn spec_burst_response_byte(c: ChipRegs, i: int) -> u8 {
    if i == 0 {
        spec_reverse_bits(c.seconds)
    } else if i == 1 {
        spec_reverse_bits(c.minutes)
    } else if i == 2 {
        spec_reverse_bits(c.hours)
    } else if i == 3 {
        spec_reverse_bits(c.date)
    } else if i == 4 {
        spec_reverse_bits(c.month)
    } else if i == 5 {
        spec_reverse_bits(c.day)
    } else if i == 6 {
        spec_reverse_bits(c.year)
    } else if i == 7 {
        spec_reverse_bits(c.write_protect)
    } else {
        0
    }
}

/// Byte `i` of the response to the command bytes `out`.  The chip answers
/// a single-register read of the seconds register and a clock-burst read;
/// any other command, and any position past what the command covers,
/// reads back as zero.
pub open spec fn spec_response_byte(c: ChipRegs, out: Seq<u8>, i: int) -> u8 {
    if out.len() == 1 {
        let cmd = spec_reverse_bits(out[0]);
        if cmd == Register::Seconds.spec_natural() | READ_FLAG {
            if i == 0 {
                spec_reverse_bits(c.seconds)
            } else {
                0
            }
        } else if cmd == Register::ClockBurst.spec_natural() | READ_FLAG {
            spec_burst_response_byte(c, i)
        } else {
            0
        }
    } else {
        0
    }
}

/// The `len` response bytes the chip returns for the command bytes
/// `out`.  A read never changes the register file.
pub open spec fn spec_response(c: ChipRegs, out: Seq<u8>, len: nat) -> Seq<u8> {
    Seq::new(len, |i: int| spec_response_byte(c, out, i))
}

} // verus!
