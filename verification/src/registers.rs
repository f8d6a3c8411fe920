//! The register map of the sensor and the rules that decide which addresses
//! a transaction may name.

use crate::errors::As8510Error;
use vstd::prelude::*;

verus! {

// Low bank: data, status and configuration registers.
pub const AS8510_DREG_I1: u8 = 0x00;  // Current data registers
pub const AS8510_DREG_I2: u8 = 0x01;
pub const AS8510_DREG_V1: u8 = 0x02;  // Voltage data registers
pub const AS8510_DREG_V2: u8 = 0x03;
pub const AS8510_STATUS_REG: u8 = 0x04;  // Read-only status register
pub const AS8510_DEC_REG_R1_I: u8 = 0x05;  // Decimation control, current channel
pub const AS8510_DEC_REG_R2_I: u8 = 0x06;
pub const AS8510_FIR_CTL_REG_I: u8 = 0x07;  // Filter control, current channel
pub const AS8510_CLK_REG: u8 = 0x08;  // Clock control
pub const AS8510_RESET_REG: u8 = 0x09;  // Soft reset
pub const AS8510_MOD_CTL_REG: u8 = 0x0A;  // Mode control
pub const AS8510_MOD_TA_REG1: u8 = 0x0B;  // Sample timing
pub const AS8510_MOD_TA_REG2: u8 = 0x0C;
pub const AS8510_MOD_ITH_REG1: u8 = 0x0D;  // Current threshold
pub const AS8510_MOD_ITH_REG2: u8 = 0x0E;
pub const AS8510_MOD_TMC_REG1: u8 = 0x0F;  // Number of samples to drop
pub const AS8510_MOD_TMC_REG2: u8 = 0x10;
pub const AS8510_NOM_ITH_REG1: u8 = 0x11;  // Nominal threshold
pub const AS8510_NOM_ITH_REG2: u8 = 0x12;
pub const AS8510_PGA_CTL_REG: u8 = 0x13;  // Gain control
pub const AS8510_PD_CTL_REG_1: u8 = 0x14;  // Power control
pub const AS8510_PD_CTL_REG_2: u8 = 0x15;
pub const AS8510_PD_CTL_REG_3: u8 = 0x16;
pub const AS8510_ACH_CTL_REG: u8 = 0x17;  // Analog channel selection
pub const AS8510_ISC_CTL_REG: u8 = 0x18;  // Internal current source
pub const AS8510_OTP_EN_REG: u8 = 0x19;  // Reserved

// High bank: saturation flags and the voltage channel's filters.
pub const AS8510_STATUS_REG_2: u8 = 0x44;  // Data saturation flags
pub const AS8510_DEC_R1_V: u8 = 0x45;  // Decimation control, voltage channel
pub const AS8510_DEC_R2_V: u8 = 0x46;
pub const AS8510_FIR_CTL_REG_V: u8 = 0x47;  // Filter control, voltage channel

/// Start of the current channel's data register pair.
pub const ADDR_CURRENT: u8 = 0x00;

/// Start of the voltage channel's data register pair.
pub const ADDR_VOLTAGE: u8 = 0x02;

/// Where the driver reads the status byte.
pub const ADDR_STATUS: u8 = 0x05;

/// Highest address a single-register write may name: the last register of
/// the high bank.
pub const WRITE_CEILING: u8 = 0x47;

/// One past the last addressable register; no burst read may run beyond it.
pub const ADDRESS_SPACE_END: u8 = 0x48;

/// Set in the command byte of a transaction that reads.
pub const READ_FLAG: u8 = 0x80;

/// The calibration constant of the conversion formula.
pub const CALIBRATION: u16 = 0x3670;

/// `addr` lies in the low bank, `0x00..=0x19`.
pub open spec fn in_low_bank(addr: u8) -> bool {
    addr <= AS8510_OTP_EN_REG
}

/// `addr` lies in the high bank, `0x44..=0x47`.
pub open spec fn in_high_bank(addr: u8) -> bool {
    AS8510_STATUS_REG_2 <= addr <= AS8510_FIR_CTL_REG_V
}

/// `addr` names a register of the chip: it lies in one of the two banks.
pub open spec fn is_register(addr: u8) -> bool {
    in_low_bank(addr) || in_high_bank(addr)
}

/// A single-register write to `addr` passes validation: the address names a
/// register of the chip.
pub open spec fn write_allowed(addr: u8) -> bool {
    is_register(addr)
}

/// A burst read of `len` bytes starting at `addr` passes validation: it ends
/// no later than the end of the addressable space.
pub open spec fn read_allowed(addr: u8, len: u8) -> bool {
    addr + len <= ADDRESS_SPACE_END
}

/// The end address of a burst read as an error reports it: start plus
/// length, reduced to the eight bits an address has.
pub open spec fn read_end(addr: u8, len: u8) -> u8 {
    ((addr + len) % 256) as u8
}

/// Tells whether `addr` names a register of the chip.
pub fn names_register(addr: u8) -> (known: bool)
    ensures
        known == is_register(addr),
{
    addr <= AS8510_OTP_EN_REG || (AS8510_STATUS_REG_2 <= addr && addr <= AS8510_FIR_CTL_REG_V)
}

/// Validates the target of a single-register write.
///
/// Every address outside the two banks is refused, and the error carries
/// that address; every register of the chip is accepted.
pub fn check_write(addr: u8) -> (checked: Result<(), As8510Error>)
    ensures
        write_allowed(addr) ==> checked == Ok::<(), As8510Error>(()),
        !write_allowed(addr) ==> checked == Err::<(), As8510Error>(
            As8510Error::IllegalAddress(addr),
        ),
{
    if !names_register(addr) {
        return Err(As8510Error::IllegalAddress(addr));
    }
    Ok(())
}

/// Validates the span of a burst read.
///
/// A read that would run past the end of the addressable space is refused,
/// and the error carries its end address; every other read is accepted.
pub fn check_read(addr: u8, len: u8) -> (checked: Result<(), As8510Error>)
    ensures
        read_allowed(addr, len) ==> checked == Ok::<(), As8510Error>(()),
        !read_allowed(addr, len) ==> checked == Err::<(), As8510Error>(
            As8510Error::IllegalAddress(read_end(addr, len)),
        ),
{
    let end: u16 = addr as u16 + len as u16;
    if end > ADDRESS_SPACE_END as u16 {
        return Err(As8510Error::IllegalAddress((end % 256) as u8));
    }
    Ok(())
}

/// No address above the write ceiling, and none between the two banks, is a
/// legal target for a write.
pub proof fn lemma_writes_stay_in_the_banks(addr: u8)
    ensures
        addr > WRITE_CEILING ==> !write_allowed(addr),
        AS8510_OTP_EN_REG < addr < AS8510_STATUS_REG_2 ==> !write_allowed(addr),
        write_allowed(addr) ==> in_low_bank(addr) || in_high_bank(addr),
{
}

/// Every register of the chip is a legal target for a write, and a read of a
/// single register is legal wherever it starts on one.
pub proof fn lemma_registers_are_addressable(addr: u8)
    requires
        is_register(addr),
    ensures
        write_allowed(addr),
        read_allowed(addr, 1),
{
}

} // verus!
