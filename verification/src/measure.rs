//! Taking a reading: the status read that gates a measurement, and the data
//! read that follows it.
//!
//! A [`Measurement`] names the burst read that is due. The caller performs
//! it and reports what the bus answered; the device then either fails, asks
//! for the next read, or gives the reading.

use crate::convert::{adc_code, convert, decode, reading};
use crate::device::{cleared, filled, read_command, As8510};
use crate::errors::As8510Error;
use crate::registers::{is_register, read_allowed, ADDR_CURRENT, ADDR_STATUS, ADDR_VOLTAGE};
use crate::status::{current_flag, voltage_flag, StatusReg};
use embedded_hal::spi::ErrorKind;
use vstd::prelude::*;

verus! {

/// One of the two channels of the sensor.
#[derive(Clone, Copy, Debug, PartialEq, Eq)]
pub enum Channel {
    Current,
    Voltage,
}

impl Channel {
    /// Where the channel's data register pair starts.
    pub open spec fn data_address(self) -> u8 {
        match self {
            Channel::Current => ADDR_CURRENT,
            Channel::Voltage => ADDR_VOLTAGE,
        }
    }

    /// A status byte reports a new conversion on this channel.
    pub open spec fn fresh_in(self, status: u8) -> bool {
        match self {
            Channel::Current => current_flag(status),
            Channel::Voltage => voltage_flag(status),
        }
    }

    /// Gives the start of the channel's data register pair.
    pub fn data_register(self) -> (addr: u8)
        ensures
            addr == self.data_address(),
    {
        match self {
            Channel::Current => ADDR_CURRENT,
            Channel::Voltage => ADDR_VOLTAGE,
        }
    }

    /// Tells whether a status snapshot reports a new conversion on this
    /// channel.
    pub fn updated(self, status: &StatusReg) -> (fresh: bool)
        ensures
            fresh == self.fresh_in(status@),
    {
        match self {
            Channel::Current => status.current_channel_updated(),
            Channel::Voltage => status.voltage_channel_updated(),
        }
    }
}

/// Both reads of a measurement pass validation and touch registers of the
/// chip only.
pub proof fn lemma_reads_are_legal(channel: Channel)
    ensures
        read_allowed(ADDR_STATUS, Stage::Status.span()),
        read_allowed(channel.data_address(), Stage::Data.span()),
        is_register(ADDR_STATUS),
        is_register(channel.data_address()),
        is_register((channel.data_address() + 1) as u8),
{
}

/// The read a measurement is waiting for.
#[derive(Clone, Copy, Debug, PartialEq, Eq)]
pub enum Stage {
    /// The read of the status byte.
    Status,
    /// The read of the channel's data register pair.
    Data,
}

impl Stage {
    /// Number of bytes the read of this stage asks for.
    pub open spec fn span(self) -> u8 {
        match self {
            Stage::Status => 1,
            Stage::Data => 2,
        }
    }

    /// Gives the number of bytes the read of this stage asks for.
    pub fn len(self) -> (len: u8)
        ensures
            len == self.span(),
    {
        match self {
            Stage::Status => 1,
            Stage::Data => 2,
        }
    }
}

/// A measurement in progress: its channel, the read it is waiting for, the
/// command byte of that read and, once the status read is over, the status
/// byte that let the measurement go on.
#[derive(Debug, PartialEq, Eq)]
pub struct Measurement {
    channel: Channel,
    stage: Stage,
    command: u8,
    gate: Option<u8>,
}

impl Measurement {
    /// The command byte belongs to the read that is due, and the data read
    /// is due only behind a status byte that reported a new conversion on
    /// the channel.
    #[verifier::type_invariant]
    pub closed spec fn wf(&self) -> bool {
        match self.stage {
            Stage::Status => {
                &&& self.gate is None
                &&& self.command == read_command(ADDR_STATUS)
            },
            Stage::Data => {
                &&& self.gate matches Some(status) && self.channel.fresh_in(status)
                &&& self.command == read_command(self.channel.data_address())
            },
        }
    }

    /// The status byte that let the measurement go on to its data read, once
    /// there is one.
    pub closed spec fn gate(&self) -> Option<u8> {
        self.gate
    }

    /// The channel being measured.
    pub closed spec fn channel(&self) -> Channel {
        self.channel
    }

    /// The read that is due.
    pub closed spec fn stage(&self) -> Stage {
        self.stage
    }

    /// The command byte of the read that is due.
    pub closed spec fn command_byte(&self) -> u8 {
        self.command
    }

    /// This measurement waits for the read of `stage` on `channel`, and its
    /// command byte opens a read at `addr`.
    pub open spec fn awaits(&self, channel: Channel, stage: Stage, addr: u8) -> bool {
        &&& self.wf()
        &&& self.channel() == channel
        &&& self.stage() == stage
        &&& self.command_byte() == read_command(addr)
    }

    /// A data read is never due unless the status byte read before it
    /// reported a new conversion on the channel being measured.
    pub proof fn lemma_data_read_is_gated(self)
        requires
            self.wf(),
            self.stage() == Stage::Data,
        ensures
            self.gate() matches Some(status) && self.channel().fresh_in(status),
            self.command_byte() == read_command(self.channel().data_address()),
    {
    }

    /// Gives the command byte to write in the first phase of the read that
    /// is due.
    pub fn command(&self) -> (byte: u8)
        ensures
            byte == self.command_byte(),
    {
        self.command
    }

    /// Gives the number of bytes to read in the second phase of the read
    /// that is due.
    pub fn len(&self) -> (len: u8)
        ensures
            len == self.stage().span(),
    {
        self.stage.len()
    }
}

/// What a measurement needs after a read was answered.
#[derive(Debug, PartialEq, Eq)]
pub enum Poll {
    /// Another read is due.
    Pending(Measurement),
    /// The reading, in tenths of the channel's unit.
    Ready(i32),
}

impl As8510 {
    /// Begins a measurement of the current channel.
    ///
    /// The measurement starts with the read of the status byte, for which
    /// the receive buffer is cleared. This never fails.
    pub fn get_current(&mut self) -> (started: Result<Measurement, As8510Error>)
        ensures
            final(self).same_gains(old(self)),
            final(self).buffer() == cleared(),
            started matches Ok(m) && m.awaits(Channel::Current, Stage::Status, ADDR_STATUS)
                && m.gate() is None,
    {
        self.begin(Channel::Current)
    }

    /// Begins a measurement of the voltage channel.
    ///
    /// The measurement starts with the read of the status byte, for which
    /// the receive buffer is cleared. This never fails.
    pub fn get_voltage(&mut self) -> (started: Result<Measurement, As8510Error>)
        ensures
            final(self).same_gains(old(self)),
            final(self).buffer() == cleared(),
            started matches Ok(m) && m.awaits(Channel::Voltage, Stage::Status, ADDR_STATUS)
                && m.gate() is None,
    {
        self.begin(Channel::Voltage)
    }

    fn begin(&mut self, channel: Channel) -> (started: Result<Measurement, As8510Error>)
        ensures
            final(self).same_gains(old(self)),
            final(self).buffer() == cleared(),
            started matches Ok(m) && m.awaits(channel, Stage::Status, ADDR_STATUS)
                && m.gate() is None,
    {
        match self.read(ADDR_STATUS, Stage::Status.len()) {
            Ok(command) => Ok(Measurement { channel, stage: Stage::Status, command, gate: None }),
            Err(refused) => Err(refused),
        }
    }

    /// Takes what the bus answered to the read that `measurement` was
    /// waiting for.
    ///
    /// A failed transaction ends the measurement with the bus error and
    /// leaves the device as it was. Otherwise the answer is stored in the
    /// receive buffer, and then:
    ///
    /// - after the status read, a status without the channel's flag ends the
    ///   measurement as not ready, and no data read follows; with the flag,
    ///   the receive buffer is cleared and the read of the channel's data
    ///   register pair is due;
    /// - after the data read, the pair is decoded and converted. Both
    ///   channels divide by the gain of the current channel.
    ///
    /// A reading is given only for a measurement whose status read found
    /// the channel's flag set.
    pub fn resume(
        &mut self,
        measurement: Measurement,
        outcome: Result<&[u8], ErrorKind>,
    ) -> (poll: Result<Poll, As8510Error>)
        ensures
            final(self).same_gains(old(self)),
            poll matches Ok(Poll::Ready(_)) ==> measurement.gate() matches Some(status)
                && measurement.channel().fresh_in(status),
            match outcome {
                Err(kind) => {
                    &&& poll == Err::<Poll, As8510Error>(As8510Error::Spi(kind))
                    &&& *final(self) == *old(self)
                },
                Ok(bytes) => {
                    let stored = filled(
                        old(self).buffer(),
                        measurement.stage().span() as nat,
                        bytes@,
                    );
                    match measurement.stage() {
                        Stage::Status => if measurement.channel().fresh_in(stored[0]) {
                            &&& poll matches Ok(Poll::Pending(next))
                            &&& next.awaits(
                                measurement.channel(),
                                Stage::Data,
                                measurement.channel().data_address(),
                            )
                            &&& next.gate() == Some(stored[0])
                            &&& final(self).buffer() == cleared()
                        } else {
                            &&& poll == Err::<Poll, As8510Error>(As8510Error::NotReady)
                            &&& final(self).buffer() == stored
                        },
                        Stage::Data => {
                            &&& poll matches Ok(Poll::Ready(tenths))
                            &&& tenths == reading(
                                adc_code(stored[0], stored[1]),
                                old(self).current_gain(),
                            )
                            &&& final(self).buffer() == stored
                        },
                    }
                },
            },
    {
        proof {
            use_type_invariant(&measurement);
        }
        let bytes = match outcome {
            Ok(bytes) => bytes,
            Err(kind) => {
                return Err(As8510Error::from(kind));
            },
        };
        self.receive(measurement.len(), bytes);
        match measurement.stage {
            Stage::Status => {
                let status = self.get_status();
                if !measurement.channel.updated(&status) {
                    return Err(As8510Error::NotReady);
                }
                let addr: u8 = measurement.channel.data_register();
                match self.read(addr, Stage::Data.len()) {
                    Ok(command) => Ok(
                        Poll::Pending(
                            Measurement {
                                channel: measurement.channel,
                                stage: Stage::Data,
                                command,
                                gate: Some(status.raw()),
                            },
                        ),
                    ),
                    Err(refused) => Err(refused),
                }
            },
            Stage::Data => {
                let (high, low): (u8, u8) = self.data_pair();
                let adc: i16 = decode(high, low);
                Ok(Poll::Ready(convert(adc, self.gain())))
            },
        }
    }
}

} // verus!
