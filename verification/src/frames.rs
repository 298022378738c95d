//! Command frames and response decoding.
//!
//! A write frame is the on-wire address byte followed by on-wire data
//! bytes: each data byte is the bit-reversal of a packed-BCD register
//! value.  The burst write frame ends with a mandatory zero byte for the
//! write-protect position — the chip silently fails to persist the year
//! register when that byte is left out.

use vstd::prelude::*;

use crate::bcd::{decimal_to_bcd, spec_bcd_to_decimal, spec_decimal_to_bcd};
use crate::bits::{lemma_reverse_bits_involutive, reverse_bits, spec_reverse_bits};
use crate::datetime::{Calendar, Clock};
use crate::model::{spec_apply_write, spec_response, ChipRegs, spec_write_protected};
use crate::registers::{make_address, spec_make_address, Register};

verus! {

/// The two-byte frame that clears the write-protect register.
pub open spec fn spec_wp_clear_frame() -> Seq<u8> {
    seq![spec_make_address(Register::WriteProtect, false), 0u8]
}

/// The two-byte frame that writes `seconds` to the seconds register,
/// BCD-encoded and bit-reversed for the wire.  Writing zero also clears
/// the clock-halt flag, since that flag is bit 7 of the same register.
pub open spec fn spec_seconds_write_frame(seconds: u8) -> Seq<u8> {
    seq![
        spec_make_address(Register::Seconds, false),
        spec_reverse_bits(spec_decimal_to_bcd(seconds)),
    ]
}

/// The nine-byte clock-burst write frame: burst address, then the seven
/// time/date registers in chip order (seconds, minutes, hours, date,
/// month, day, two-digit year), each BCD-encoded and bit-reversed, then
/// the mandatory trailing zero for the write-protect position.
pub open spec fn spec_burst_write_frame(calendar: Calendar, clock: Clock) -> Seq<u8> {
    seq![
        spec_make_address(Register::ClockBurst, false),
        spec_reverse_bits(spec_decimal_to_bcd(clock.seconds)),
        spec_reverse_bits(spec_decimal_to_bcd(clock.minutes)),
        spec_reverse_bits(spec_decimal_to_bcd(clock.hours)),
        spec_reverse_bits(spec_decimal_to_bcd(calendar.date)),
        spec_reverse_bits(spec_decimal_to_bcd(calendar.month)),
        spec_reverse_bits(spec_decimal_to_bcd(calendar.day)),
        spec_reverse_bits(spec_decimal_to_bcd((calendar.year - 2000) as u8)),
        0u8,
    ]
}

/// The clock a three-byte clock-burst response decodes to.  Per the
/// register convention of this read path the bytes are BCD-decoded
/// directly, without the bit-reversal the eight-byte path applies.
pub open spec fn spec_decode_clock3(resp: Seq<u8>) -> Clock {
    Clock {
        hours: spec_bcd_to_decimal(resp[2]),
        minutes: spec_bcd_to_decimal(resp[1]),
        seconds: spec_bcd_to_decimal(resp[0]),
    }
}

/// The calendar and clock an eight-byte clock-burst response decodes to:
/// every byte is bit-reversed and BCD-decoded, the two-digit year is
/// mapped to 2000–2099, and the trailing write-protect byte is
/// discarded.
pub open spec fn spec_decode_burst8(resp: Seq<u8>) -> (Calendar, Clock) {
    (
        Calendar {
            year: (2000 + spec_bcd_to_decimal(spec_reverse_bits(resp[6]))) as u16,
            month: spec_bcd_to_decimal(spec_reverse_bits(resp[4])),
            date: spec_bcd_to_decimal(spec_reverse_bits(resp[3])),
            day: spec_bcd_to_decimal(spec_reverse_bits(resp[5])),
        },
        Clock {
            hours: spec_bcd_to_decimal(spec_reverse_bits(resp[2])),
            minutes: spec_bcd_to_decimal(spec_reverse_bits(resp[1])),
            seconds: spec_bcd_to_decimal(spec_reverse_bits(resp[0])),
        },
    )
}

/// Build the frame that clears the write-protect register.
pub fn wp_clear_frame() -> (r: Vec<u8>)
    ensures
        r@ == spec_wp_clear_frame(),
{
    let mut frame: Vec<u8> = Vec::new();
    frame.push(make_address(Register::WriteProtect, false));
    frame.push(0);
    proof {
        assert(frame@ =~= spec_wp_clear_frame());
    }
    frame
}

/// Build the frame that writes `seconds` to the seconds register.
pub fn seconds_write_frame(seconds: u8) -> (r: Vec<u8>)
    requires
        seconds <= 59,
    ensures
        r@ == spec_seconds_write_frame(seconds),
{
    let mut frame: Vec<u8> = Vec::new();
    frame.push(make_address(Register::Seconds, false));
    frame.push(reverse_bits(decimal_to_bcd(seconds)));
    proof {
        assert(frame@ =~= spec_seconds_write_frame(seconds));
    }
    frame
}

/// Build the nine-byte clock-burst write frame for `calendar` and
/// `clock`.
pub fn clock_burst_write_frame(calendar: &Calendar, clock: &Clock) -> (r: Vec<u8>)
    requires
        calendar.wf(),
        clock.wf(),
    ensures
        r@ == spec_burst_write_frame(*calendar, *clock),
{
    let mut frame: Vec<u8> = Vec::new();
    frame.push(make_address(Register::ClockBurst, false));
    frame.push(reverse_bits(decimal_to_bcd(clock.seconds)));
    frame.push(reverse_bits(decimal_to_bcd(clock.minutes)));
    frame.push(reverse_bits(decimal_to_bcd(clock.hours)));
    frame.push(reverse_bits(decimal_to_bcd(calendar.date)));
    frame.push(reverse_bits(decimal_to_bcd(calendar.month)));
    frame.push(reverse_bits(decimal_to_bcd(calendar.day)));
    frame.push(reverse_bits(decimal_to_bcd((calendar.year - 2000) as u8)));
    frame.push(0);
    proof {
        assert(frame@ =~= spec_burst_write_frame(*calendar, *clock));
    }
    frame
}

/// One register field's trip over the wire: BCD-encode, reverse for the
/// write, un-reverse into the register file, reverse again for the read
/// response, un-reverse and BCD-decode — the value comes back unchanged.
proof fn lemma_wire_field_round_trip(v: u8)
    by (bit_vector)
    requires
        v <= 99,
    ensures
        spec_bcd_to_decimal(
            spec_reverse_bits(
                spec_reverse_bits(spec_reverse_bits(spec_reverse_bits(spec_decimal_to_bcd(v)))),
            ),
        ) == v,
{
}

/// Law: a calendar and clock written through the burst-write frame and
/// read back through the eight-byte burst read decode to exactly the
/// written values, for every valid pair and every starting register file
/// whose write-protect flag is clear.
#[verifier::rlimit(60)]
pub proof fn lemma_burst_write_read_round_trip(calendar: Calendar, clock: Clock, c: ChipRegs)
    requires
        calendar.wf(),
        clock.wf(),
        !spec_write_protected(c),
    ensures
        ({
            let written = spec_apply_write(c, spec_burst_write_frame(calendar, clock));
            let resp = spec_response(
                written,
                seq![spec_make_address(Register::ClockBurst, true)],
                8,
            );
            spec_decode_burst8(resp) == (calendar, clock)
        }),
{
    let frame = spec_burst_write_frame(calendar, clock);
    let written = spec_apply_write(c, frame);
    let cmd = spec_make_address(Register::ClockBurst, true);
    let resp = spec_response(written, seq![cmd], 8);

    // The frame's address byte names the clock burst and not the
    // write-protect register, and the read command names the clock burst
    // with the read flag set.
    assert(0xBEu8 | 0u8 == 0xBEu8) by (bit_vector);
    assert(0xBEu8 | 0x01u8 == 0xBFu8) by (bit_vector);
    assert(0x80u8 | 0x01u8 == 0x81u8) by (bit_vector);
    lemma_reverse_bits_involutive(0xBE);
    lemma_reverse_bits_involutive(0xBF);
    assert(spec_reverse_bits(frame[0]) == 0xBE);
    assert(spec_reverse_bits(cmd) == 0xBF);

    assert(written.seconds == spec_reverse_bits(frame[1]));
    assert(written.year == spec_reverse_bits(frame[7]));

    assert(resp.len() == 8);
    assert(resp[0] == spec_reverse_bits(written.seconds));
    assert(resp[1] == spec_reverse_bits(written.minutes));
    assert(resp[2] == spec_reverse_bits(written.hours));
    assert(resp[3] == spec_reverse_bits(written.date));
    assert(resp[4] == spec_reverse_bits(written.month));
    assert(resp[5] == spec_reverse_bits(written.day));
    assert(resp[6] == spec_reverse_bits(written.year));

    // Each field survives encode, two wire reversals and decode.
    lemma_wire_field_round_trip(clock.seconds);
    lemma_wire_field_round_trip(clock.minutes);
    lemma_wire_field_round_trip(clock.hours);
    lemma_wire_field_round_trip(calendar.date);
    lemma_wire_field_round_trip(calendar.month);
    lemma_wire_field_round_trip(calendar.day);
    lemma_wire_field_round_trip((calendar.year - 2000) as u8);

    assert(spec_decode_burst8(resp).1 == clock);
    assert(spec_decode_burst8(resp).0.year == calendar.year);
    assert(spec_decode_burst8(resp).0 == calendar);
}

} // verus!
