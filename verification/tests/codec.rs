//! Tests for the BCD codec, bit reversal, addressing and frame building.

use ds1302::{
    bcd_to_decimal, clock_burst_write_frame, decimal_to_bcd, make_address, reverse_bits, Calendar,
    Clock, Register,
};

#[test]
fn bcd_round_trips_for_every_two_digit_value() {
    for v in 0..=99u8 {
        assert_eq!(bcd_to_decimal(decimal_to_bcd(v)), v);
    }
}

#[test]
fn bcd_packs_tens_into_high_nibble() {
    assert_eq!(decimal_to_bcd(0), 0x00);
    assert_eq!(decimal_to_bcd(7), 0x07);
    assert_eq!(decimal_to_bcd(24), 0x24);
    assert_eq!(decimal_to_bcd(59), 0x59);
    assert_eq!(decimal_to_bcd(99), 0x99);
}

#[test]
fn bcd_decodes_high_nibble_times_ten() {
    assert_eq!(bcd_to_decimal(0x00), 0);
    assert_eq!(bcd_to_decimal(0x13), 13);
    assert_eq!(bcd_to_decimal(0x45), 45);
    assert_eq!(bcd_to_decimal(0x99), 99);
}

#[test]
fn bcd_decode_does_not_validate_nibbles() {
    // A nibble above 9 is no BCD digit; the decode silently yields an
    // out-of-range value instead of an error.
    assert_eq!(bcd_to_decimal(0xFF), 165);
    assert_eq!(bcd_to_decimal(0x0A), 10);
}

#[test]
fn reverse_bits_swaps_bit_order() {
    assert_eq!(reverse_bits(0x00), 0x00);
    assert_eq!(reverse_bits(0x80), 0x01);
    assert_eq!(reverse_bits(0x01), 0x80);
    assert_eq!(reverse_bits(0xBE), 0x7D);
    assert_eq!(reverse_bits(0xF0), 0x0F);
}

#[test]
fn reverse_bits_is_an_involution_on_samples() {
    for b in [0x00u8, 0x01, 0x5A, 0x80, 0x8E, 0xBE, 0xFF] {
        assert_eq!(reverse_bits(reverse_bits(b)), b);
    }
}

#[test]
fn seconds_read_address_is_reversed_natural_with_read_flag() {
    // Natural seconds register 0x80, natural read flag 0x01: the wire
    // byte is the reversal of their OR.
    assert_eq!(make_address(Register::Seconds, true), reverse_bits(0x80 | 0x01));
    assert_eq!(make_address(Register::Seconds, true), 0x81);
}

#[test]
fn write_addresses_carry_no_read_flag() {
    assert_eq!(make_address(Register::Seconds, false), reverse_bits(0x80));
    assert_eq!(make_address(Register::Seconds, false), 0x01);
    assert_eq!(make_address(Register::WriteProtect, false), 0x71);
    assert_eq!(make_address(Register::ClockBurst, false), 0x7D);
    assert_eq!(make_address(Register::ClockBurst, true), 0xFD);
    assert_eq!(make_address(Register::Ram, false), reverse_bits(0xC0));
    assert_eq!(make_address(Register::RamBurst, true), reverse_bits(0xFE | 0x01));
}

#[test]
fn burst_frame_encodes_year_reversed_and_ends_with_zero() {
    let calendar = Calendar { year: 2024, month: 3, date: 15, day: 5 };
    let clock = Clock { hours: 13, minutes: 45, seconds: 0 };
    let frame = clock_burst_write_frame(&calendar, &clock);
    assert_eq!(frame.len(), 9);
    assert_eq!(frame[0], make_address(Register::ClockBurst, false));
    assert_eq!(bcd_to_decimal(reverse_bits(frame[1])), 0);
    assert_eq!(bcd_to_decimal(reverse_bits(frame[2])), 45);
    assert_eq!(bcd_to_decimal(reverse_bits(frame[3])), 13);
    assert_eq!(bcd_to_decimal(reverse_bits(frame[4])), 15);
    assert_eq!(bcd_to_decimal(reverse_bits(frame[5])), 3);
    assert_eq!(bcd_to_decimal(reverse_bits(frame[6])), 5);
    // The eighth payload byte bit-reverse-decodes to the two-digit year.
    assert_eq!(bcd_to_decimal(reverse_bits(frame[7])), 24);
    // The trailing write-protect byte is mandatory and exactly zero.
    assert_eq!(frame[8], 0);
}
