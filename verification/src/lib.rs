//! Driver for the DS1302 real-time-clock chip.
//!
//! The chip sits on a half-duplex, byte-oriented bus.  Every byte on the
//! wire is bit-reversed relative to the value the chip's register map
//! documents, register contents are binary-coded decimal, and the low bit
//! of a (natural) address byte selects read or write.  The driver builds
//! command frames, decodes responses, and runs the initialization sequence
//! (write-protect clear, clock-halt check) over any transport that offers
//! the two bus primitives.

mod bcd;
mod bits;
mod datetime;
mod driver;
mod frames;
mod model;
mod registers;
mod sim;

pub use bcd::{bcd_to_decimal, decimal_to_bcd, lemma_bcd_round_trip, spec_bcd_to_decimal,
    spec_decimal_to_bcd};
pub use bits::{lemma_reverse_bits_involutive, reverse_bits, spec_reverse_bits};
pub use datetime::{Calendar, Clock};
pub use driver::{lemma_init_outcome, spec_init_log_running, Transport, TransportError, DS1302};
pub use frames::{clock_burst_write_frame, lemma_burst_write_read_round_trip, seconds_write_frame,
    spec_burst_write_frame, spec_decode_burst8, spec_decode_clock3, spec_seconds_write_frame,
    spec_wp_clear_frame, wp_clear_frame};
pub use model::{BusOp, ChipRegs, spec_apply_write, spec_burst_response_byte, spec_halt_set,
    spec_response, spec_response_byte, spec_write_protected};
pub use registers::{make_address, Register, spec_make_address, READ_FLAG};
pub use sim::{wire_op_view, SimChip, WireOp};
