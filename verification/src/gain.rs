//! The amplifier gains of the two channels and the configuration bytes that
//! select them.

use vstd::prelude::*;

verus! {

/// Amplification applied to a channel before digitization.
///
/// Largest readings of the current channel:
/// `Gain1` +2076/-1523 A, `Gain25` +/-400 A, `Gain40` +/-235 A,
/// `Gain100` +/-77 A.
#[derive(Clone, Copy, Debug, PartialEq, Eq)]
pub enum Gain {
    Gain1,
    Gain25,
    Gain40,
    Gain100,
}

impl Gain {
    /// The multiplier of this gain, by which a conversion divides.
    pub open spec fn scale(self) -> int {
        match self {
            Gain::Gain1 => 1,
            Gain::Gain25 => 25,
            Gain::Gain40 => 40,
            Gain::Gain100 => 100,
        }
    }

    /// The two-bit code that selects this gain on the current channel.
    pub open spec fn current_code(self) -> int {
        match self {
            Gain::Gain1 => 0,
            Gain::Gain25 => 1,
            Gain::Gain40 => 2,
            Gain::Gain100 => 3,
        }
    }

    /// The two-bit code that selects this gain on the voltage channel.
    /// `Gain25` and `Gain40` share one code.
    pub open spec fn voltage_code(self) -> int {
        match self {
            Gain::Gain1 => 0,
            Gain::Gain25 => 1,
            Gain::Gain40 => 1,
            Gain::Gain100 => 3,
        }
    }

    /// The voltage channel can be run at this gain.
    pub open spec fn fits_voltage(self) -> bool {
        self is Gain25 || self is Gain40
    }

    /// Tells whether the voltage channel can be run at this gain.
    pub fn supports_voltage(self) -> (supported: bool)
        ensures
            supported == self.fits_voltage(),
    {
        matches!(self, Gain::Gain40) || matches!(self, Gain::Gain25)
    }
}

impl From<Gain> for i32 {
    /// The multiplier of `gain`.
    fn from(gain: Gain) -> (scale: i32) {
        match gain {
            Gain::Gain1 => 1,
            Gain::Gain25 => 25,
            Gain::Gain40 => 40,
            Gain::Gain100 => 100,
        }
    }
}

impl vstd::std_specs::convert::FromSpecImpl<Gain> for i32 {
    open spec fn obeys_from_spec() -> bool {
        true
    }

    open spec fn from_spec(gain: Gain) -> i32 {
        gain.scale() as i32
    }
}

/// The gain-control byte: the current channel's code in bits 7 and 6, the
/// voltage channel's code in bits 5 and 4, the low nibble zero.
pub open spec fn gain_control(current: Gain, voltage: Gain) -> int {
    64 * current.current_code() + 16 * voltage.voltage_code()
}

/// The low nibble of the second power-control byte: all ones at current gain
/// one; otherwise bit 1, together with bit 0 unless the voltage gain is one.
pub open spec fn power_nibble(current: Gain, voltage: Gain) -> int {
    if current is Gain1 {
        15
    } else if voltage is Gain1 {
        2
    } else {
        3
    }
}

/// The second power-control byte: a high nibble of ones above
/// [`power_nibble`].
pub open spec fn power_control(current: Gain, voltage: Gain) -> int {
    240 + power_nibble(current, voltage)
}

/// Computes the gain-control byte for a pair of gains.
pub fn gain_control_byte(current: Gain, voltage: Gain) -> (byte: u8)
    ensures
        byte == gain_control(current, voltage),
{
    let high: u8 = match current {
        Gain::Gain1 => 0,
        Gain::Gain25 => 0b0100,
        Gain::Gain40 => 0b1000,
        Gain::Gain100 => 0b1100,
    };
    let low: u8 = match voltage {
        Gain::Gain1 => 0,
        Gain::Gain25 => 0b0001,
        Gain::Gain40 => 0b001,
        Gain::Gain100 => 0b0011,
    };
    assert((high | low) << 4 == 16 * high + 16 * low) by (bit_vector)
        requires
            high % 4 == 0,
            high <= 0b1100,
            low <= 0b0011,
    ;
    (high | low) << 4
}

/// Computes the second power-control byte for a pair of gains.
pub fn power_control_byte(current: Gain, voltage: Gain) -> (byte: u8)
    ensures
        byte == power_control(current, voltage),
{
    let current_bits: u8 = if matches!(current, Gain::Gain1) {
        0xf
    } else {
        0b0010
    };
    let voltage_bit: u8 = if matches!(voltage, Gain::Gain1) {
        0
    } else {
        0b0001
    };
    assert(0xf0u8 | current_bits | voltage_bit == 0xf0u8 + (current_bits | voltage_bit))
        by (bit_vector)
        requires
            current_bits <= 0x0f,
            voltage_bit <= 0x0f,
    ;
    assert(0x0fu8 | voltage_bit == 0x0fu8 && 0b0010u8 | voltage_bit == 0b0010u8 + voltage_bit)
        by (bit_vector)
        requires
            voltage_bit <= 0b0001,
    ;
    0xf0 | current_bits | voltage_bit
}

/// The gain-control byte of every pair of gains, current gain first.
pub proof fn lemma_gain_control_table()
    ensures
        gain_control(Gain::Gain1, Gain::Gain1) == 0b0000_0000,
        gain_control(Gain::Gain1, Gain::Gain25) == 0b0001_0000,
        gain_control(Gain::Gain1, Gain::Gain40) == 0b0001_0000,
        gain_control(Gain::Gain1, Gain::Gain100) == 0b0011_0000,
        gain_control(Gain::Gain25, Gain::Gain1) == 0b0100_0000,
        gain_control(Gain::Gain25, Gain::Gain25) == 0b0101_0000,
        gain_control(Gain::Gain25, Gain::Gain40) == 0b0101_0000,
        gain_control(Gain::Gain25, Gain::Gain100) == 0b0111_0000,
        gain_control(Gain::Gain40, Gain::Gain1) == 0b1000_0000,
        gain_control(Gain::Gain40, Gain::Gain25) == 0b1001_0000,
        gain_control(Gain::Gain40, Gain::Gain40) == 0b1001_0000,
        gain_control(Gain::Gain40, Gain::Gain100) == 0b1011_0000,
        gain_control(Gain::Gain100, Gain::Gain1) == 0b1100_0000,
        gain_control(Gain::Gain100, Gain::Gain25) == 0b1101_0000,
        gain_control(Gain::Gain100, Gain::Gain40) == 0b1101_0000,
        gain_control(Gain::Gain100, Gain::Gain100) == 0b1111_0000,
{
}

/// The second power-control byte of every pair of gains, current gain first.
pub proof fn lemma_power_control_table()
    ensures
        power_control(Gain::Gain1, Gain::Gain1) == 0b1111_1111,
        power_control(Gain::Gain1, Gain::Gain25) == 0b1111_1111,
        power_control(Gain::Gain1, Gain::Gain40) == 0b1111_1111,
        power_control(Gain::Gain1, Gain::Gain100) == 0b1111_1111,
        power_control(Gain::Gain25, Gain::Gain1) == 0b1111_0010,
        power_control(Gain::Gain25, Gain::Gain25) == 0b1111_0011,
        power_control(Gain::Gain25, Gain::Gain40) == 0b1111_0011,
        power_control(Gain::Gain25, Gain::Gain100) == 0b1111_0011,
        power_control(Gain::Gain40, Gain::Gain1) == 0b1111_0010,
        power_control(Gain::Gain40, Gain::Gain25) == 0b1111_0011,
        power_control(Gain::Gain40, Gain::Gain40) == 0b1111_0011,
        power_control(Gain::Gain40, Gain::Gain100) == 0b1111_0011,
        power_control(Gain::Gain100, Gain::Gain1) == 0b1111_0010,
        power_control(Gain::Gain100, Gain::Gain25) == 0b1111_0011,
        power_control(Gain::Gain100, Gain::Gain40) == 0b1111_0011,
        power_control(Gain::Gain100, Gain::Gain100) == 0b1111_0011,
{
}

} // verus!
