//! The status byte and the two flags the driver reads from it.

use vstd::prelude::*;

verus! {

/// A status byte reports a new conversion on the current channel: bit 2.
pub open spec fn current_flag(status: u8) -> bool {
    (status / 4) % 2 == 1
}

/// A status byte reports a new conversion on the voltage channel: bit 1.
pub open spec fn voltage_flag(status: u8) -> bool {
    (status / 2) % 2 == 1
}

/// One snapshot of the status register. A snapshot says nothing about the
/// chip after the read that produced it.
#[derive(Debug, Clone, Copy)]
pub struct StatusReg(u8);

impl View for StatusReg {
    type V = u8;

    closed spec fn view(&self) -> u8 {
        self.0
    }
}

impl StatusReg {
    /// Mask of the flag "the current channel holds a new conversion".
    pub const CURRENT_CHANNEL_UPDATED: u8 = 0b0000_0100;

    /// Mask of the flag "the voltage channel holds a new conversion".
    pub const VOLTAGE_CHANNEL_UPDATED: u8 = 0b0000_0010;

    /// The flag of the current channel in this snapshot.
    pub open spec fn current_updated(self) -> bool {
        current_flag(self@)
    }

    /// The flag of the voltage channel in this snapshot.
    pub open spec fn voltage_updated(self) -> bool {
        voltage_flag(self@)
    }

    /// Wraps a byte read from the status register.
    pub fn new(value: u8) -> (status: Self)
        ensures
            status@ == value,
    {
        StatusReg(value)
    }

    /// Gives back the byte this snapshot wraps.
    pub fn raw(&self) -> (value: u8)
        ensures
            value == self@,
    {
        self.0
    }

    /// Tells whether the current channel holds a conversion that has not
    /// been read.
    pub fn current_channel_updated(&self) -> (updated: bool)
        ensures
            updated == self.current_updated(),
            updated == (self@ & Self::CURRENT_CHANNEL_UPDATED != 0),
    {
        let value: u8 = self.0;
        proof {
            assert((value & 0b0000_0100 != 0) == ((value / 4) % 2 == 1)) by (bit_vector);
        }
        self.0 & Self::CURRENT_CHANNEL_UPDATED != 0
    }

    /// Tells whether the voltage channel holds a conversion that has not
    /// been read.
    pub fn voltage_channel_updated(&self) -> (updated: bool)
        ensures
            updated == self.voltage_updated(),
            updated == (self@ & Self::VOLTAGE_CHANNEL_UPDATED != 0),
    {
        let value: u8 = self.0;
        proof {
            assert((value & 0b0000_0010 != 0) == ((value / 2) % 2 == 1)) by (bit_vector);
        }
        self.0 & Self::VOLTAGE_CHANNEL_UPDATED != 0
    }
}

} // verus!
