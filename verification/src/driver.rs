//! The DS1302 driver proper.
//!
//! [`DS1302`] owns a [`Transport`] — the half-duplex bus collaborator —
//! for its whole lifetime and is the only issuer of transfers on it.
//! Every operation is a blocking call; every transport failure is
//! returned to the caller unchanged, with no retry, translation or
//! suppression at this layer.

use vstd::prelude::*;

use crate::bcd::{bcd_to_decimal, spec_decimal_to_bcd};
use crate::bits::{lemma_reverse_bits_involutive, reverse_bits, spec_reverse_bits};
use crate::datetime::{Calendar, Clock};
use crate::frames::{clock_burst_write_frame, seconds_write_frame, spec_burst_write_frame,
    spec_decode_burst8, spec_decode_clock3, spec_seconds_write_frame, spec_wp_clear_frame,
    wp_clear_frame};
use crate::model::{spec_apply_write, spec_halt_set, spec_response, spec_write_protected, BusOp,
    ChipRegs};
use crate::registers::{make_address, spec_make_address, Register};

verus! {

/// A failure reported by the bus collaborator.  The driver raises no
/// error of its own: this single kind is propagated verbatim.
#[derive(Clone, Copy, Debug, PartialEq, Eq, Structural)]
pub struct TransportError;

/// The half-duplex bus the chip hangs off.  `chip()` is the register
/// file the transport's chip holds and `log()` the sequence of bus
/// transactions issued so far; both are abstract, and an implementation
/// says what they mean for it.  Either primitive may fail at any time —
/// nothing is promised of a failed call — but a transaction that
/// succeeds behaves exactly as the chip model says.
///
/// The transport is assumed already configured for the chip:
/// chip-select active-high, clock idle-low with capture on the second
/// edge, half-duplex three-wire operation.
pub trait Transport: Sized {
    /// The register file of the chip behind this transport.
    spec fn chip(&self) -> ChipRegs;

    /// Every bus transaction issued through this transport so far.
    spec fn log(&self) -> Seq<BusOp>;

    /// Send `data` — one address byte and its data bytes — with no
    /// response expected.
    fn write(&mut self, data: &Vec<u8>) -> (r: Result<(), TransportError>)
        ensures
            r is Ok ==> final(self).chip() == spec_apply_write(old(self).chip(), data@)
                && final(self).log() == old(self).log().push(BusOp::Write(data@)),
    ;

    /// Send the command bytes `out`, then read exactly `len` response
    /// bytes, half-duplex: the send completes before the read begins.
    fn transfer(&mut self, out: &Vec<u8>, len: usize) -> (r: Result<Vec<u8>, TransportError>)
        ensures
            r is Ok ==> r->Ok_0@ == spec_response(old(self).chip(), out@, len as nat)
                && final(self).chip() == old(self).chip()
                && final(self).log() == old(self).log().push(
                    BusOp::Transfer(out@, len as nat),
                ),
    ;
}

/// Driver for one DS1302 chip, owning its bus transport exclusively.
pub struct DS1302<T: Transport> {
    /// The bus the chip is reached over.
    pub transport: T,
}

/// The bus transactions a successful initialization issues when the
/// clock-halt flag turns out clear: the write-protect clear, then the
/// raw seconds read.
pub open spec fn spec_init_log_running(log: Seq<BusOp>) -> Seq<BusOp> {
    log.push(BusOp::Write(spec_wp_clear_frame())).push(
        BusOp::Transfer(seq![spec_make_address(Register::Seconds, true)], 1),
    )
}

/// Law: whatever the chip held before, the register file a successful
/// [`DS1302::init`] leaves behind has the write-protect flag clear and
/// the clock running, and no register other than write-protect — and,
/// only when the clock-halt flag was set, seconds — is touched.
/// Clearing a set halt flag resets the seconds counter to zero as a
/// side effect.
pub proof fn lemma_init_outcome(c: ChipRegs)
    ensures
        ({
            let cleared = spec_apply_write(c, spec_wp_clear_frame());
            let after = if spec_halt_set(cleared) {
                spec_apply_write(cleared, spec_seconds_write_frame(0))
            } else {
                cleared
            };
            &&& cleared == (ChipRegs { write_protect: 0, ..c })
            &&& after == if spec_halt_set(cleared) {
                (ChipRegs { seconds: 0, write_protect: 0, ..c })
            } else {
                (ChipRegs { write_protect: 0, ..c })
            }
            &&& !spec_write_protected(after)
            &&& !spec_halt_set(after)
        }),
{
    assert(spec_reverse_bits(0u8) == 0u8) by (bit_vector);
    assert(0x8Eu8 | 0u8 == 0x8Eu8) by (bit_vector);
    assert(0x80u8 | 0u8 == 0x80u8) by (bit_vector);
    assert(0u8 & 0x80u8 == 0u8) by (bit_vector);
    assert(spec_decimal_to_bcd(0) == 0) by (bit_vector);
    lemma_reverse_bits_involutive(0x8E);
    lemma_reverse_bits_involutive(0x80);
    let cleared = spec_apply_write(c, spec_wp_clear_frame());
    assert(cleared == (ChipRegs { write_protect: 0, ..c }));
    if spec_halt_set(cleared) {
        let after = spec_apply_write(cleared, spec_seconds_write_frame(0));
        assert(after == (ChipRegs { seconds: 0, write_protect: 0, ..c }));
    }
}

impl<T: Transport> DS1302<T> {
    /// Take ownership of a configured transport.
    pub fn new(transport: T) -> (r: Self)
        ensures
            r.transport == transport,
    {
        DS1302 { transport }
    }

    /// Initialize the chip: clear the write-protect register, read the
    /// raw seconds register, and — only if its clock-halt flag is set —
    /// write zero seconds, which restarts the oscillator and resets the
    /// seconds counter.  Must be called once before any other operation.
    /// Fails with the transport's error if any of the underlying bus
    /// calls fails; no retry is attempted.
    pub fn init(&mut self) -> (r: Result<(), TransportError>)
        ensures
            r is Ok ==> ({
                let cleared = spec_apply_write(old(self).transport.chip(), spec_wp_clear_frame());
                let probed = spec_init_log_running(old(self).transport.log());
                if spec_halt_set(cleared) {
                    final(self).transport.chip() == spec_apply_write(
                        cleared,
                        spec_seconds_write_frame(0),
                    ) && final(self).transport.log() == probed.push(
                        BusOp::Write(spec_seconds_write_frame(0)),
                    )
                } else {
                    final(self).transport.chip() == cleared && final(self).transport.log()
                        == probed
                }
            }),
    {
        let frame = wp_clear_frame();
        match self.transport.write(&frame) {
            Ok(()) => {}
            Err(e) => {
                return Err(e);
            }
        }
        let raw = match self.get_seconds() {
            Ok(raw) => raw,
            Err(e) => {
                return Err(e);
            }
        };
        proof {
            let cleared = spec_apply_write(old(self).transport.chip(), spec_wp_clear_frame());
            let s = cleared.seconds;
            assert((spec_reverse_bits(s) & 0x01u8 != 0) == (s & 0x80u8 != 0)) by (bit_vector);
        }
        // The clock-halt flag is bit 7 of the natural seconds register,
        // which arrives bit-reversed: on the wire it is bit 0.
        if raw & 0x01 != 0 {
            match self.set_seconds(0) {
                Ok(()) => {}
                Err(e) => {
                    return Err(e);
                }
            }
        }
        Ok(())
    }

    /// Read the raw seconds register: one command byte out, one response
    /// byte back.  The byte is returned as received — bit-reversed, BCD,
    /// clock-halt flag included — so the caller can inspect the halt
    /// flag before any decoding.
    pub fn get_seconds(&mut self) -> (r: Result<u8, TransportError>)
        ensures
            r is Ok ==> r->Ok_0 == spec_reverse_bits(old(self).transport.chip().seconds)
                && final(self).transport.chip() == old(self).transport.chip()
                && final(self).transport.log() == old(self).transport.log().push(
                BusOp::Transfer(seq![spec_make_address(Register::Seconds, true)], 1),
            ),
    {
        let cmd = vec![make_address(Register::Seconds, true)];
        match self.transport.transfer(&cmd, 1) {
            Ok(resp) => {
                proof {
                    assert(0x80u8 | 0x01u8 == 0x81u8) by (bit_vector);
                    lemma_reverse_bits_involutive(0x81);
                    assert(cmd@ =~= seq![spec_make_address(Register::Seconds, true)]);
                }
                Ok(resp[0])
            }
            Err(e) => Err(e),
        }
    }

    /// Write `seconds` to the seconds register, BCD-encoded and
    /// bit-reversed for the wire.  Writing zero also clears the
    /// clock-halt flag.
    pub fn set_seconds(&mut self, seconds: u8) -> (r: Result<(), TransportError>)
        requires
            seconds <= 59,
        ensures
            r is Ok ==> final(self).transport.chip() == spec_apply_write(
                old(self).transport.chip(),
                spec_seconds_write_frame(seconds),
            ) && final(self).transport.log() == old(self).transport.log().push(
                BusOp::Write(spec_seconds_write_frame(seconds)),
            ),
    {
        let frame = seconds_write_frame(seconds);
        match self.transport.write(&frame) {
            Ok(()) => Ok(()),
            Err(e) => Err(e),
        }
    }

    /// Read the time of day alone: a clock-burst read of exactly three
    /// bytes (seconds, minutes, hours in that order), each BCD-decoded
    /// directly per this path's register convention.  Either all three
    /// bytes are read and decoded or the whole call fails — no partial
    /// clock is ever returned.
    pub fn get_clock(&mut self) -> (r: Result<Clock, TransportError>)
        ensures
            r is Ok ==> r->Ok_0 == spec_decode_clock3(
                spec_response(
                    old(self).transport.chip(),
                    seq![spec_make_address(Register::ClockBurst, true)],
                    3,
                ),
            ) && final(self).transport.chip() == old(self).transport.chip()
                && final(self).transport.log() == old(self).transport.log().push(
                BusOp::Transfer(seq![spec_make_address(Register::ClockBurst, true)], 3),
            ),
    {
        let cmd = vec![make_address(Register::ClockBurst, true)];
        match self.transport.transfer(&cmd, 3) {
            Ok(resp) => {
                proof {
                    assert(cmd@ =~= seq![spec_make_address(Register::ClockBurst, true)]);
                }
                Ok(
                    Clock {
                        hours: bcd_to_decimal(resp[2]),
                        minutes: bcd_to_decimal(resp[1]),
                        seconds: bcd_to_decimal(resp[0]),
                    },
                )
            }
            Err(e) => Err(e),
        }
    }

    /// Read calendar and clock in one atomic clock-burst transfer of
    /// exactly eight bytes; every byte is bit-reversed and BCD-decoded,
    /// the two-digit year is mapped to 2000–2099, and the trailing
    /// write-protect byte is discarded.  Decoding never proceeds on a
    /// failed or short read.
    pub fn get_calednar_and_clock(&mut self) -> (r: Result<(Calendar, Clock), TransportError>)
        ensures
            r is Ok ==> r->Ok_0 == spec_decode_burst8(
                spec_response(
                    old(self).transport.chip(),
                    seq![spec_make_address(Register::ClockBurst, true)],
                    8,
                ),
            ) && final(self).transport.chip() == old(self).transport.chip()
                && final(self).transport.log() == old(self).transport.log().push(
                BusOp::Transfer(seq![spec_make_address(Register::ClockBurst, true)], 8),
            ),
    {
        let cmd = vec![make_address(Register::ClockBurst, true)];
        match self.transport.transfer(&cmd, 8) {
            Ok(resp) => {
                proof {
                    assert(cmd@ =~= seq![spec_make_address(Register::ClockBurst, true)]);
                }
                Ok(
                    (
                        Calendar {
                            year: 2000 + bcd_to_decimal(reverse_bits(resp[6])) as u16,
                            month: bcd_to_decimal(reverse_bits(resp[4])),
                            date: bcd_to_decimal(reverse_bits(resp[3])),
                            day: bcd_to_decimal(reverse_bits(resp[5])),
                        },
                        Clock {
                            hours: bcd_to_decimal(reverse_bits(resp[2])),
                            minutes: bcd_to_decimal(reverse_bits(resp[1])),
                            seconds: bcd_to_decimal(reverse_bits(resp[0])),
                        },
                    ),
                )
            }
            Err(e) => Err(e),
        }
    }

    /// Replace the chip's whole date and time in one atomic nine-byte
    /// burst write: burst address, seven BCD-encoded bit-reversed
    /// registers in chip order, and the mandatory trailing zero for the
    /// write-protect position.  A failed write leaves the chip's
    /// registers unspecified — the chip does not guarantee atomicity of
    /// an aborted burst.
    pub fn set_calendar_and_date(&mut self, calendar: Calendar, clock: Clock) -> (r: Result<
        (),
        TransportError,
    >)
        requires
            calendar.wf(),
            clock.wf(),
        ensures
            r is Ok ==> final(self).transport.chip() == spec_apply_write(
                old(self).transport.chip(),
                spec_burst_write_frame(calendar, clock),
            ) && final(self).transport.log() == old(self).transport.log().push(
                BusOp::Write(spec_burst_write_frame(calendar, clock)),
            ),
    {
        let frame = clock_burst_write_frame(&calendar, &clock);
        match self.transport.write(&frame) {
            Ok(()) => Ok(()),
            Err(e) => Err(e),
        }
    }
}

} // verus!
