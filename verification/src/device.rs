//! The device and its bus transaction layer.
//!
//! The layer never touches a bus. A write is validated and framed; a read is
//! validated and turned into a command byte, and what the bus answered is
//! stored afterwards. Whoever owns the transport carries the bytes.

use crate::errors::As8510Error;
use crate::gain::{gain_control, gain_control_byte, power_control, power_control_byte, Gain};
use crate::registers::{check_read, check_write, read_allowed, read_end, write_allowed, READ_FLAG};
use crate::setup::Setup;
use crate::status::StatusReg;
use vstd::prelude::*;
use vstd::slice::slice_subrange;

verus! {

/// Number of bytes the receive buffer holds.
pub const RECEIVE_CAPACITY: usize = 5;

/// The receive buffer after it was cleared.
pub open spec fn cleared() -> Seq<u8> {
    Seq::new(RECEIVE_CAPACITY as nat, |i: int| 0u8)
}

/// The receive buffer after a read of `len` bytes was answered with `bytes`:
/// the answer lies at the front, as far as it reaches and at most `len`
/// bytes of it, and the rest of the buffer is as it was.
pub open spec fn filled(buffer: Seq<u8>, len: nat, bytes: Seq<u8>) -> Seq<u8> {
    Seq::new(
        buffer.len(),
        |i: int|
            if i < len && i < bytes.len() {
                bytes[i]
            } else {
                buffer[i]
            },
    )
}

/// The command byte that opens a burst read at `addr`: the address with its
/// high bit set. No read that passes validation starts as high as that bit.
pub open spec fn read_command(addr: u8) -> int
    recommends
        addr < READ_FLAG,
{
    addr + READ_FLAG
}

/// A read never shows what an earlier read left in the receive buffer.
///
/// Whatever the buffer held, once it was cleared for a read of `len` bytes
/// and the answer stored, the buffer holds the answer at its front, as far
/// as the answer and `len` reach, and zero everywhere behind.
pub proof fn lemma_read_hides_earlier_reads(len: nat, bytes: Seq<u8>)
    ensures
        filled(cleared(), len, bytes).len() == RECEIVE_CAPACITY,
        forall|i: int|
            0 <= i < RECEIVE_CAPACITY ==> #[trigger] filled(cleared(), len, bytes)[i] == (if i < len
                && i < bytes.len() {
                bytes[i]
            } else {
                0u8
            }),
{
}

/// A sensor with the gains it was configured for and its receive buffer.
#[derive(Debug)]
pub struct As8510 {
    data: [u8; 5],
    current_gain: Gain,
    voltage_gain: Gain,
}

impl As8510 {
    /// The voltage channel runs at a gain it supports.
    #[verifier::type_invariant]
    pub closed spec fn wf(&self) -> bool {
        self.voltage_gain.fits_voltage()
    }

    /// The content of the receive buffer.
    pub closed spec fn buffer(&self) -> Seq<u8> {
        self.data@
    }

    /// The gain of the current channel.
    pub closed spec fn current_gain(&self) -> Gain {
        self.current_gain
    }

    /// The gain of the voltage channel.
    pub closed spec fn voltage_gain(&self) -> Gain {
        self.voltage_gain
    }

    /// No device exists whose voltage channel runs at a gain other than 25
    /// or 40.
    pub proof fn lemma_voltage_gain_fits(&self)
        requires
            self.wf(),
        ensures
            self.voltage_gain().fits_voltage(),
    {
    }

    /// The receive buffer holds [`RECEIVE_CAPACITY`] bytes at all times.
    pub proof fn lemma_buffer_capacity(&self)
        ensures
            self.buffer().len() == RECEIVE_CAPACITY,
    {
    }

    /// Both devices are configured alike.
    pub open spec fn same_gains(&self, other: &As8510) -> bool {
        &&& self.current_gain() == other.current_gain()
        &&& self.voltage_gain() == other.voltage_gain()
    }

    /// Begins the bring-up of a sensor with the given gains. Nothing has
    /// been written yet.
    ///
    /// The voltage channel runs at gain 25 or 40 only; to ask for another
    /// gain is a mistake of the caller, not a condition to recover from.
    pub fn new(current_gain: Gain, voltage_gain: Gain) -> (setup: Setup)
        requires
            voltage_gain.fits_voltage(),
        ensures
            setup.wf(),
            setup.acknowledged() == 0,
            setup.device().current_gain() == current_gain,
            setup.device().voltage_gain() == voltage_gain,
            setup.device().buffer() == cleared(),
    {
        let device = As8510 { data: [0; 5], current_gain, voltage_gain };
        assert(device.data@ =~= cleared());
        Setup::begin(device)
    }

    /// The byte for the second power-control register.
    #[inline]
    pub fn reg_0x15(&self) -> (byte: u8)
        ensures
            byte == power_control(self.current_gain(), self.voltage_gain()),
    {
        power_control_byte(self.current_gain, self.voltage_gain)
    }

    /// The byte for the gain-control register.
    #[inline]
    pub fn reg_0x13(&self) -> (byte: u8)
        ensures
            byte == gain_control(self.current_gain(), self.voltage_gain()),
    {
        gain_control_byte(self.current_gain, self.voltage_gain)
    }

    /// Prepares the write of `data` to the register at `addr`.
    ///
    /// An address that names no register of the chip, above the banks or
    /// between them, is refused with the address in the error, and there is
    /// then nothing to put on the bus. A register gives the frame of the one
    /// transaction that performs the write: the address, then the byte.
    pub fn write(&self, addr: u8, data: u8) -> (frame: Result<[u8; 2], As8510Error>)
        ensures
            write_allowed(addr) ==> frame is Ok && frame->Ok_0@ == seq![addr, data],
            !write_allowed(addr) ==> frame == Err::<[u8; 2], As8510Error>(
                As8510Error::IllegalAddress(addr),
            ),
    {
        match check_write(addr) {
            Ok(()) => {
                let txdata: [u8; 2] = [addr, data];
                assert(txdata@ =~= seq![addr, data]);
                Ok(txdata)
            },
            Err(refused) => Err(refused),
        }
    }

    /// Prepares a burst read of `len` bytes starting at `addr`.
    ///
    /// A read that would run past the addressable space is refused with its
    /// end address in the error; the device is then unchanged and there is
    /// nothing to put on the bus. Every other read clears the receive buffer
    /// and gives the command byte of the transaction: the command is
    /// written, then `len` bytes are read and handed to
    /// [`receive`](Self::receive).
    ///
    /// A read that passes validation must fit the receive buffer.
    pub fn read(&mut self, addr: u8, len: u8) -> (command: Result<u8, As8510Error>)
        requires
            read_allowed(addr, len) ==> len <= RECEIVE_CAPACITY,
        ensures
            final(self).same_gains(old(self)),
            read_allowed(addr, len) ==> command is Ok && command->Ok_0 == read_command(addr)
                && final(self).buffer() == cleared(),
            !read_allowed(addr, len) ==> command == Err::<u8, As8510Error>(
                As8510Error::IllegalAddress(read_end(addr, len)),
            ) && *final(self) == *old(self),
    {
        proof {
            use_type_invariant(&*self);
        }
        match check_read(addr, len) {
            Ok(()) => {
                self.data = [0; 5];
                assert(self.data@ =~= cleared());
                assert(addr | 0x80 == addr + 0x80) by (bit_vector)
                    requires
                        addr < 0x80,
                ;
                Ok(addr | READ_FLAG)
            },
            Err(refused) => Err(refused),
        }
    }

    /// Stores what the bus answered to a read of `len` bytes.
    ///
    /// The answer goes to the front of the receive buffer. Of an answer
    /// longer than `len` only the first `len` bytes are taken; where the
    /// answer is shorter, the buffer keeps what it held.
    pub fn receive(&mut self, len: u8, bytes: &[u8])
        ensures
            final(self).same_gains(old(self)),
            final(self).buffer() == filled(old(self).buffer(), len as nat, bytes@),
    {
        proof {
            use_type_invariant(&*self);
        }
        let mut i: usize = 0;
        while i < len as usize && i < bytes.len() && i < RECEIVE_CAPACITY
            invariant
                i <= len,
                i <= RECEIVE_CAPACITY,
                i <= bytes@.len(),
                self.same_gains(old(self)),
                self.wf(),
                forall|k: int| 0 <= k < i ==> self.data@[k] == bytes@[k],
                forall|k: int| i <= k < 5 ==> self.data@[k] == old(self).data@[k],
            decreases RECEIVE_CAPACITY - i,
        {
            self.data[i] = bytes[i];
            i = i + 1;
        }
        assert(self.data@ =~= filled(old(self).buffer(), len as nat, bytes@));
    }

    /// The first `len` bytes of the receive buffer: what a read of `len`
    /// bytes returns once it has been answered.
    pub fn received(&self, len: u8) -> (window: &[u8])
        requires
            len <= RECEIVE_CAPACITY,
        ensures
            window@ == self.buffer().subrange(0, len as int),
    {
        slice_subrange(self.data.as_slice(), 0, len as usize)
    }

    /// The first two bytes of the receive buffer: what a read of a data
    /// register pair left there.
    pub(crate) fn data_pair(&self) -> (pair: (u8, u8))
        ensures
            pair == (self.buffer()[0], self.buffer()[1]),
    {
        (self.data[0], self.data[1])
    }

    /// The gain that a conversion divides by: that of the current channel,
    /// whichever channel was read.
    pub(crate) fn gain(&self) -> (gain: Gain)
        ensures
            gain == self.current_gain(),
    {
        self.current_gain
    }

    /// The status snapshot that the receive buffer holds after a read of the
    /// status register.
    pub fn get_status(&self) -> (status: StatusReg)
        ensures
            status@ == self.buffer()[0],
    {
        StatusReg::new(self.data[0])
    }
}

} // verus!
