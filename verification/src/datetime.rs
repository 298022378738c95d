//! The driver's typed view of the chip's date and time registers.

use vstd::prelude::*;

verus! {

/// The chip's date registers as one immutable value: constructed fresh on
/// every read, replaced wholesale on every write.
#[derive(Clone, Copy, Debug, PartialEq, Eq, Structural)]
pub struct Calendar {
    /// Full year, 2000–2099; the chip stores only the two low digits.
    pub year: u16,
    /// Month of the year, 1–12.
    pub month: u8,
    /// Day of the month, 1–31.
    pub date: u8,
    /// Day of the week, 1–7.
    pub day: u8,
}

/// The chip's time registers, with the same construction and replacement
/// discipline as [`Calendar`].
#[derive(Clone, Copy, Debug, PartialEq, Eq, Structural)]
pub struct Clock {
    /// Hour of the day, 0–23 (24-hour mode only).
    pub hours: u8,
    /// Minute of the hour, 0–59.
    pub minutes: u8,
    /// Second of the minute, 0–59.
    pub seconds: u8,
}

impl Calendar {
    /// Every field lies in the range the chip can represent.
    pub open spec fn wf(self) -> bool {
        &&& 2000 <= self.year <= 2099
        &&& 1 <= self.month <= 12
        &&& 1 <= self.date <= 31
        &&& 1 <= self.day <= 7
    }
}

impl Clock {
    /// Every field lies in the range the chip can represent.
    pub open spec fn wf(self) -> bool {
        &&& self.hours <= 23
        &&& self.minutes <= 59
        &&& self.seconds <= 59
    }
}

} // verus!
