//! From the two bytes of a data register pair to a reading.

use crate::gain::Gain;
use crate::registers::CALIBRATION;
use vstd::prelude::*;

verus! {

/// The converter's code for a data register pair: the pair read as one
/// big-endian number, moved down by half its range so that `0x8000` is zero.
pub open spec fn adc_code(high: u8, low: u8) -> int {
    256 * high + low - 32768
}

/// A sixteen-bit pattern read as a signed number in two's complement.
pub open spec fn signed16(pattern: int) -> int {
    if pattern % 0x1_0000 < 0x8000 {
        pattern % 0x1_0000
    } else {
        pattern % 0x1_0000 - 0x1_0000
    }
}

/// The code of a register pair is the pair read as a signed big-endian
/// number with `0x8000` added to it in sixteen bits, the carry dropped.
pub proof fn lemma_adc_code_wraps(high: u8, low: u8)
    ensures
        adc_code(high, low) == signed16(signed16(256 * high + low) + signed16(0x8000)),
        -0x8000 <= adc_code(high, low) < 0x8000,
{
}

/// The quotient of `x` by a positive `d`, rounded towards zero.
pub open spec fn quotient(x: int, d: int) -> int {
    if x >= 0 {
        x / d
    } else {
        -((-x) / d)
    }
}

/// The reading that belongs to a converter code, in tenths of the channel's
/// unit: the code times the calibration constant, divided by the gain's
/// multiplier and then by 2000, each quotient rounded towards zero.
pub open spec fn reading(code: int, gain: Gain) -> int {
    quotient(quotient(code * CALIBRATION, gain.scale()), 2000)
}

/// Decodes a data register pair into the converter's code.
pub fn decode(high: u8, low: u8) -> (code: i16)
    ensures
        code == adc_code(high, low),
{
    let raw: i32 = 256 * (high as i32) + (low as i32);
    (raw - 32768) as i16
}

/// Converts a converter code taken at `gain` into tenths of the channel's
/// unit.
pub fn convert(code: i16, gain: Gain) -> (tenths: i32)
    ensures
        tenths == reading(code as int, gain),
{
    let scale: i32 = i32::from(gain);
    let scaled: i32 = (code as i32) * (CALIBRATION as i32);
    scaled / scale / 2000
}

} // verus!
