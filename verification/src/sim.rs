//! An in-memory simulated chip.
//!
//! [`SimChip`] implements [`Transport`] by running the chip model
//! directly: it bit-reverses incoming bytes into a natural register
//! file, honours the write-protect flag, answers the seconds read and
//! the clock burst, and records every transaction.  It also injects one
//! failure on demand on either primitive, so callers can exercise the
//! driver's error paths.

use vstd::prelude::*;

use crate::bits::reverse_bits;
use crate::driver::{Transport, TransportError};
use crate::model::{spec_response, spec_response_byte, BusOp, ChipRegs};
use crate::registers::{Register, READ_FLAG};

verus! {

/// One recorded bus transaction, as plain values an unverified caller
/// (a test) can inspect.
#[derive(Clone, Debug, PartialEq, Eq)]
pub enum WireOp {
    /// A plain write of the given frame.
    Write(Vec<u8>),
    /// A transfer of the given command bytes and response length.
    Transfer(Vec<u8>, usize),
}

/// The [`BusOp`] a recorded [`WireOp`] stands for.
pub open spec fn wire_op_view(op: WireOp) -> BusOp {
    match op {
        WireOp::Write(data) => BusOp::Write(data@),
        WireOp::Transfer(out, len) => BusOp::Transfer(out@, len as nat),
    }
}

/// A simulated DS1302 attached to a simulated bus.
pub struct SimChip {
    /// The register file, in natural (un-reversed) bit order.
    pub state: ChipRegs,
    /// Every transaction accepted so far, oldest first.
    pub ops: Vec<WireOp>,
    /// When set, the next `write` call fails and clears the flag.
    pub fail_next_write: bool,
    /// When set, the next `transfer` call fails and clears the flag.
    pub fail_next_transfer: bool,
}

impl SimChip {
    /// A simulated chip whose registers hold `state`, with an empty
    /// transaction record and no failure pending.
    pub fn new(state: ChipRegs) -> (r: SimChip)
        ensures
            r.state == state,
            r.ops@.len() == 0,
            !r.fail_next_write,
            !r.fail_next_transfer,
    {
        SimChip { state, ops: Vec::new(), fail_next_write: false, fail_next_transfer: false }
    }

    /// Copy `data` so a transaction can be recorded without consuming
    /// the caller's frame.
    fn copy_bytes(data: &Vec<u8>) -> (r: Vec<u8>)
        ensures
            r@ == data@,
    {
        let mut copy: Vec<u8> = Vec::new();
        let mut i: usize = 0;
        while i < data.len()
            invariant
                i <= data.len(),
                copy@ == data@.subrange(0, i as int),
            decreases data.len() - i,
        {
            copy.push(data[i]);
            proof {
                assert(copy@ =~= data@.subrange(0, i + 1));
            }
            i += 1;
        }
        proof {
            assert(copy@ =~= data@);
        }
        copy
    }

    /// Response byte `i` for the command bytes `out`, per the chip
    /// model.
    fn response_byte(&self, out: &Vec<u8>, i: usize) -> (r: u8)
        ensures
            r == spec_response_byte(self.state, out@, i as int),
    {
        if out.len() != 1 {
            return 0;
        }
        let cmd = reverse_bits(out[0]);
        if cmd == Register::Seconds.natural() | READ_FLAG {
            if i == 0 {
                reverse_bits(self.state.seconds)
            } else {
                0
            }
        } else if cmd == Register::ClockBurst.natural() | READ_FLAG {
            if i == 0 {
                reverse_bits(self.state.seconds)
            } else if i == 1 {
                reverse_bits(self.state.minutes)
            } else if i == 2 {
                reverse_bits(self.state.hours)
            } else if i == 3 {
                reverse_bits(self.state.date)
            } else if i == 4 {
                reverse_bits(self.state.month)
            } else if i == 5 {
                reverse_bits(self.state.day)
            } else if i == 6 {
                reverse_bits(self.state.year)
            } else if i == 7 {
                reverse_bits(self.state.write_protect)
            } else {
                0
            }
        } else {
            0
        }
    }
}

impl Transport for SimChip {
    open spec fn chip(&self) -> ChipRegs {
        self.state
    }

    open spec fn log(&self) -> Seq<BusOp> {
        self.ops@.map_values(|op: WireOp| wire_op_view(op))
    }

    fn write(&mut self, data: &Vec<u8>) -> (r: Result<(), TransportError>) {
        if self.fail_next_write {
            self.fail_next_write = false;
            return Err(TransportError);
        }
        if data.len() >= 2 {
            let addr = reverse_bits(data[0]);
            if addr == Register::WriteProtect.natural() && data.len() == 2 {
                self.state.write_protect = reverse_bits(data[1]);
            } else if self.state.write_protect & 0x80 != 0 {
                // Write-protected: the chip ignores the write.
            } else if addr == Register::Seconds.natural() && data.len() == 2 {
                self.state.seconds = reverse_bits(data[1]);
            } else if addr == Register::ClockBurst.natural() && data.len() == 9 {
                self.state.seconds = reverse_bits(data[1]);
                self.state.minutes = reverse_bits(data[2]);
                self.state.hours = reverse_bits(data[3]);
                self.state.date = reverse_bits(data[4]);
                self.state.month = reverse_bits(data[5]);
                self.state.day = reverse_bits(data[6]);
                self.state.year = reverse_bits(data[7]);
                self.state.write_protect = reverse_bits(data[8]);
            }
        }
        let entry = WireOp::Write(Self::copy_bytes(data));
        let ghost logged = entry;
        self.ops.push(entry);
        proof {
            assert(self.log() =~= old(self).log().push(wire_op_view(logged)));
        }
        Ok(())
    }

    fn transfer(&mut self, out: &Vec<u8>, len: usize) -> (r: Result<Vec<u8>, TransportError>) {
        if self.fail_next_transfer {
            self.fail_next_transfer = false;
            return Err(TransportError);
        }
        let mut resp: Vec<u8> = Vec::new();
        let mut i: usize = 0;
        while i < len
            invariant
                i <= len,
                resp@.len() == i as int,
                forall|j: int| 0 <= j < i ==> resp@[j] == spec_response_byte(self.state, out@, j),
                *self == *old(self),
            decreases len - i,
        {
            let b = self.response_byte(out, i);
            resp.push(b);
            i += 1;
        }
        let entry = WireOp::Transfer(Self::copy_bytes(out), len);
        let ghost logged = entry;
        self.ops.push(entry);
        proof {
            assert(resp@ =~= spec_response(self.state, out@, len as nat));
            assert(self.log() =~= old(self).log().push(wire_op_view(logged)));
        }
        Ok(resp)
    }
}

} // verus!
