//! Driver scenarios against the simulated chip.

use ds1302::{
    decimal_to_bcd, reverse_bits, Calendar, ChipRegs, Clock, SimChip, WireOp, DS1302,
};

fn zeroed_regs() -> ChipRegs {
    ChipRegs {
        seconds: 0,
        minutes: 0,
        hours: 0,
        date: 0,
        month: 0,
        day: 0,
        year: 0,
        write_protect: 0,
    }
}

fn fresh_driver(regs: ChipRegs) -> DS1302<SimChip> {
    DS1302::new(SimChip::new(regs))
}

#[test]
fn burst_write_then_read_returns_written_values() {
    let calendar = Calendar { year: 2024, month: 3, date: 15, day: 5 };
    let clock = Clock { hours: 13, minutes: 45, seconds: 0 };
    let mut driver = fresh_driver(zeroed_regs());
    driver.init().unwrap();
    driver.set_calendar_and_date(calendar, clock).unwrap();
    let (read_calendar, read_clock) = driver.get_calednar_and_clock().unwrap();
    assert_eq!(read_calendar, calendar);
    assert_eq!(read_clock, clock);
}

#[test]
fn burst_round_trip_at_range_edges() {
    let pairs = [
        (
            Calendar { year: 2000, month: 1, date: 1, day: 1 },
            Clock { hours: 0, minutes: 0, seconds: 0 },
        ),
        (
            Calendar { year: 2099, month: 12, date: 31, day: 7 },
            Clock { hours: 23, minutes: 59, seconds: 59 },
        ),
    ];
    for (calendar, clock) in pairs {
        let mut driver = fresh_driver(zeroed_regs());
        driver.init().unwrap();
        driver.set_calendar_and_date(calendar, clock).unwrap();
        let (read_calendar, read_clock) = driver.get_calednar_and_clock().unwrap();
        assert_eq!(read_calendar, calendar);
        assert_eq!(read_clock, clock);
    }
}

#[test]
fn init_with_halt_set_writes_zero_seconds_once() {
    // Clock-halt flag is bit 7 of the natural seconds register.
    let mut regs = zeroed_regs();
    regs.seconds = 0x80;
    regs.write_protect = 0x80;
    let mut driver = fresh_driver(regs);
    driver.init().unwrap();
    // Exactly three transactions: write-protect cleared first, then the
    // raw seconds read, then a single write of seconds = 0.
    assert_eq!(
        driver.transport.ops,
        vec![
            WireOp::Write(vec![0x71, 0x00]),
            WireOp::Transfer(vec![0x81], 1),
            WireOp::Write(vec![0x01, 0x00]),
        ]
    );
    assert_eq!(driver.transport.state.seconds, 0);
    assert_eq!(driver.transport.state.write_protect, 0);
}

#[test]
fn init_with_halt_clear_never_touches_seconds() {
    let mut regs = zeroed_regs();
    regs.seconds = 0x25;
    let mut driver = fresh_driver(regs);
    driver.init().unwrap();
    // Only the write-protect clear and the seconds read occur.
    assert_eq!(
        driver.transport.ops,
        vec![WireOp::Write(vec![0x71, 0x00]), WireOp::Transfer(vec![0x81], 1)]
    );
    assert_eq!(driver.transport.state.seconds, 0x25);
}

#[test]
fn get_seconds_returns_raw_wire_byte() {
    let mut regs = zeroed_regs();
    regs.seconds = 0x80;
    let mut driver = fresh_driver(regs);
    assert_eq!(driver.get_seconds().unwrap(), reverse_bits(0x80));
}

#[test]
fn get_clock_decodes_three_bytes_without_reversal() {
    // Per this read path's register convention the three response bytes
    // are BCD-decoded directly; a register holding the bit-reversal of a
    // BCD value therefore reads back as that value.
    let mut regs = zeroed_regs();
    regs.seconds = reverse_bits(decimal_to_bcd(7));
    regs.minutes = reverse_bits(decimal_to_bcd(30));
    regs.hours = reverse_bits(decimal_to_bcd(21));
    let mut driver = fresh_driver(regs);
    let clock = driver.get_clock().unwrap();
    assert_eq!(clock, Clock { hours: 21, minutes: 30, seconds: 7 });
}

#[test]
fn helper_frames_match_the_wire_layout() {
    assert_eq!(ds1302::wp_clear_frame(), vec![0x71, 0x00]);
    assert_eq!(
        ds1302::seconds_write_frame(30),
        vec![0x01, reverse_bits(decimal_to_bcd(30))]
    );
}

#[test]
fn burst_read_propagates_a_transfer_failure() {
    let mut driver = fresh_driver(zeroed_regs());
    driver.transport.fail_next_transfer = true;
    assert!(driver.get_calednar_and_clock().is_err());
}

#[test]
fn get_clock_propagates_a_transfer_failure() {
    let mut driver = fresh_driver(zeroed_regs());
    driver.transport.fail_next_transfer = true;
    // The whole operation fails; no partial clock is ever returned.
    assert!(driver.get_clock().is_err());
    // The next transfer succeeds again.
    assert!(driver.get_clock().is_ok());
}

#[test]
fn write_failures_surface_unchanged() {
    let calendar = Calendar { year: 2024, month: 3, date: 15, day: 5 };
    let clock = Clock { hours: 13, minutes: 45, seconds: 0 };
    let mut driver = fresh_driver(zeroed_regs());
    driver.transport.fail_next_write = true;
    assert!(driver.set_calendar_and_date(calendar, clock).is_err());
    driver.transport.fail_next_write = true;
    assert!(driver.init().is_err());
}

#[test]
fn writes_are_ignored_while_write_protected() {
    let calendar = Calendar { year: 2024, month: 3, date: 15, day: 5 };
    let clock = Clock { hours: 13, minutes: 45, seconds: 0 };
    let mut regs = zeroed_regs();
    regs.write_protect = 0x80;
    let mut driver = fresh_driver(regs);
    // Without init the burst write reaches the bus but the chip drops it.
    driver.set_calendar_and_date(calendar, clock).unwrap();
    assert_eq!(driver.transport.state.year, 0);
    // After init the same write lands.
    driver.init().unwrap();
    driver.set_calendar_and_date(calendar, clock).unwrap();
    assert_eq!(driver.transport.state.year, decimal_to_bcd(24));
}
