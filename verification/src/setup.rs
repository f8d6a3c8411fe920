//! Bring-up: the ordered register writes that take a sensor from power-on to
//! continuous sampling.
//!
//! A [`Setup`] names the write that is due. The caller performs it and
//! reports how it ended; the first failure ends the bring-up, and after the
//! last acknowledged write the configured device is handed out.

use crate::device::As8510;
use crate::errors::As8510Error;
use crate::gain::{gain_control, power_control, Gain};
use crate::registers::{
    is_register, write_allowed, AS8510_ACH_CTL_REG, AS8510_CLK_REG, AS8510_DEC_REG_R1_I,
    AS8510_DEC_REG_R2_I, AS8510_FIR_CTL_REG_I, AS8510_ISC_CTL_REG, AS8510_MOD_CTL_REG,
    AS8510_MOD_ITH_REG1, AS8510_MOD_ITH_REG2, AS8510_MOD_TA_REG1, AS8510_MOD_TA_REG2,
    AS8510_MOD_TMC_REG1, AS8510_MOD_TMC_REG2, AS8510_NOM_ITH_REG1, AS8510_NOM_ITH_REG2,
    AS8510_OTP_EN_REG, AS8510_PD_CTL_REG_1, AS8510_PD_CTL_REG_2, AS8510_PD_CTL_REG_3,
    AS8510_PGA_CTL_REG,
};
use embedded_hal::spi::ErrorKind;
use vstd::prelude::*;

verus! {

/// Number of writes in a bring-up: twenty that configure the chip and the
/// one that starts sampling.
pub const SETUP_WRITES: usize = 21;

/// The writes of a bring-up in the order they are issued, each as register
/// address and byte.
pub open spec fn setup_writes(current: Gain, voltage: Gain) -> Seq<(u8, u8)> {
    seq![
        (AS8510_DEC_REG_R1_I, 0b0100_0101u8),
        (AS8510_DEC_REG_R2_I, 0b1100_0101u8),
        (AS8510_FIR_CTL_REG_I, 0b0000_0100u8),
        (AS8510_CLK_REG, 0b0010_0000u8),
        (AS8510_MOD_CTL_REG, 0u8),
        (AS8510_MOD_TA_REG1, 0b1000_0000u8),
        (AS8510_MOD_TA_REG2, 0u8),
        (AS8510_MOD_ITH_REG1, 0b0101_0000u8),
        (AS8510_MOD_ITH_REG2, 0b1100_1111u8),
        (AS8510_MOD_TMC_REG1, 0b1111_0011u8),
        (AS8510_MOD_TMC_REG2, 0b1111_1000u8),
        (AS8510_NOM_ITH_REG1, 0u8),
        (AS8510_NOM_ITH_REG2, 0u8),
        (AS8510_PGA_CTL_REG, gain_control(current, voltage) as u8),
        (AS8510_PD_CTL_REG_1, 0b1100_1111u8),
        (AS8510_PD_CTL_REG_2, power_control(current, voltage) as u8),
        (AS8510_PD_CTL_REG_3, 0b1111_1000u8),
        (AS8510_ACH_CTL_REG, 0u8),
        (AS8510_ISC_CTL_REG, 0u8),
        (AS8510_OTP_EN_REG, 0u8),
        (AS8510_MOD_CTL_REG, 1u8),
    ]
}

/// A bring-up in progress: the device being configured and the number of
/// writes the bus has acknowledged.
#[derive(Debug)]
pub struct Setup {
    device: As8510,
    acknowledged: usize,
}

/// Where a bring-up stands after an acknowledged write.
#[derive(Debug)]
pub enum Progress {
    /// More writes are due.
    Pending(Setup),
    /// Every write was acknowledged: the chip is sampling.
    Ready(As8510),
}

/// The course a bring-up took: the writes that were put on the bus, in
/// order, and how it ended, if it has.
pub struct Course {
    pub writes: Seq<(u8, u8)>,
    pub end: Option<Result<As8510, As8510Error>>,
}

/// Number of acknowledged writes at the head of `outcomes`, up to the first
/// failure.
pub open spec fn leading_acks(outcomes: Seq<Result<(), ErrorKind>>) -> nat
    decreases outcomes.len(),
{
    if outcomes.len() > 0 && outcomes[0] is Ok {
        1 + leading_acks(outcomes.drop_first())
    } else {
        0
    }
}

/// The course of a bring-up that stands at `setup` when the bus answers its
/// writes with `outcomes`, one after the other: the write that is due is
/// issued, its outcome is taken, and so on until the bring-up ends or the
/// bus has no more answers.
pub open spec fn course(setup: Setup, outcomes: Seq<Result<(), ErrorKind>>) -> Course
    decreases outcomes.len(),
{
    if outcomes.len() == 0 {
        Course { writes: Seq::empty(), end: None }
    } else {
        match setup.after(outcomes[0]) {
            Err(error) => Course { writes: seq![setup.due()], end: Some(Err(error)) },
            Ok(Progress::Ready(device)) => Course {
                writes: seq![setup.due()],
                end: Some(Ok(device)),
            },
            Ok(Progress::Pending(next)) => {
                let rest = course(next, outcomes.drop_first());
                Course { writes: seq![setup.due()] + rest.writes, end: rest.end }
            },
        }
    }
}

impl Setup {
    /// At least one write is still due.
    #[verifier::type_invariant]
    pub closed spec fn wf(&self) -> bool {
        self.acknowledged < SETUP_WRITES && self.device.wf()
    }

    /// The device being configured.
    pub closed spec fn device(&self) -> As8510 {
        self.device
    }

    /// Number of writes the bus has acknowledged so far.
    pub closed spec fn acknowledged(&self) -> nat {
        self.acknowledged as nat
    }

    /// The writes of the bring-up this belongs to, all of them.
    pub open spec fn plan(&self) -> Seq<(u8, u8)> {
        setup_writes(self.device().current_gain(), self.device().voltage_gain())
    }

    /// Where the bring-up stands once `outcome` of the write that was due
    /// is known.
    pub closed spec fn after(
        self,
        outcome: Result<(), ErrorKind>,
    ) -> Result<Progress, As8510Error> {
        match outcome {
            Err(kind) => Err(As8510Error::Spi(kind)),
            Ok(()) => if self.acknowledged + 1 < SETUP_WRITES {
                Ok(
                    Progress::Pending(
                        Setup {
                            device: self.device,
                            acknowledged: (self.acknowledged + 1) as usize,
                        },
                    ),
                )
            } else {
                Ok(Progress::Ready(self.device))
            },
        }
    }

    /// The write that is due, as register address and byte.
    pub open spec fn due(&self) -> (u8, u8) {
        self.plan()[self.acknowledged() as int]
    }

    /// A bring-up of `device` that has written nothing yet.
    pub(crate) fn begin(device: As8510) -> (setup: Setup)
        ensures
            setup.wf(),
            setup.device() == device,
            setup.acknowledged() == 0,
    {
        proof {
            use_type_invariant(&device);
        }
        Setup { device, acknowledged: 0 }
    }

    /// Looks up the write that is due.
    fn lookup(&self) -> (entry: (u8, u8))
        ensures
            entry == self.due(),
            write_allowed(entry.0),
    {
        proof {
            use_type_invariant(self);
        }
        let table: [(u8, u8); 21] = [
            (AS8510_DEC_REG_R1_I, 0b0100_0101),
            (AS8510_DEC_REG_R2_I, 0b1100_0101),
            (AS8510_FIR_CTL_REG_I, 0b0000_0100),
            (AS8510_CLK_REG, 0b0010_0000),
            (AS8510_MOD_CTL_REG, 0),
            (AS8510_MOD_TA_REG1, 0b1000_0000),
            (AS8510_MOD_TA_REG2, 0),
            (AS8510_MOD_ITH_REG1, 0b0101_0000),
            (AS8510_MOD_ITH_REG2, 0b1100_1111),
            (AS8510_MOD_TMC_REG1, 0b1111_0011),
            (AS8510_MOD_TMC_REG2, 0b1111_1000),
            (AS8510_NOM_ITH_REG1, 0),
            (AS8510_NOM_ITH_REG2, 0),
            (AS8510_PGA_CTL_REG, self.device.reg_0x13()),
            (AS8510_PD_CTL_REG_1, 0b1100_1111),
            (AS8510_PD_CTL_REG_2, self.device.reg_0x15()),
            (AS8510_PD_CTL_REG_3, 0b1111_1000),
            (AS8510_ACH_CTL_REG, 0),
            (AS8510_ISC_CTL_REG, 0),
            (AS8510_OTP_EN_REG, 0),
            // Start sampling.
            (AS8510_MOD_CTL_REG, 0x01),
        ];
        assert(table@ =~= setup_writes(self.device.current_gain(), self.device.voltage_gain()));
        table[self.acknowledged]
    }

    /// Prepares the write that is due.
    ///
    /// The write passes through the same validation as every other and
    /// always passes it: the result is the frame of the transaction to
    /// perform, the register address and then the byte.
    pub fn next_write(&self) -> (frame: Result<[u8; 2], As8510Error>)
        ensures
            frame is Ok,
            frame->Ok_0@ == seq![self.due().0, self.due().1],
    {
        let (addr, data): (u8, u8) = self.lookup();
        self.device.write(addr, data)
    }

    /// Takes the outcome of the write that was due.
    ///
    /// A failure ends the bring-up with the bus error, and no further write
    /// can follow. An acknowledged write moves on to the next one; after the
    /// last, the configured device is handed out.
    pub fn advance(
        self,
        outcome: Result<(), ErrorKind>,
    ) -> (progress: Result<Progress, As8510Error>)
        ensures
            progress == self.after(outcome),
            match outcome {
                Err(kind) => progress == Err::<Progress, As8510Error>(As8510Error::Spi(kind)),
                Ok(()) => if self.acknowledged() + 1 < SETUP_WRITES {
                    &&& progress matches Ok(Progress::Pending(next))
                    &&& next.wf()
                    &&& next.device() == self.device()
                    &&& next.acknowledged() == self.acknowledged() + 1
                } else {
                    progress == Ok::<Progress, As8510Error>(Progress::Ready(self.device()))
                },
            },
    {
        proof {
            use_type_invariant(&self);
        }
        match outcome {
            Err(kind) => Err(As8510Error::from(kind)),
            Ok(()) => {
                let acknowledged: usize = self.acknowledged + 1;
                if acknowledged < SETUP_WRITES {
                    Ok(Progress::Pending(Setup { device: self.device, acknowledged }))
                } else {
                    Ok(Progress::Ready(self.device))
                }
            },
        }
    }
}

/// A bring-up writes nothing but registers of the chip, each of them a legal
/// target, and its last write sets the mode-control register to one.
pub proof fn lemma_setup_writes_legal(current: Gain, voltage: Gain)
    ensures
        setup_writes(current, voltage).len() == SETUP_WRITES,
        forall|i: int|
            0 <= i < SETUP_WRITES ==> is_register(#[trigger] setup_writes(current, voltage)[i].0)
                && write_allowed(setup_writes(current, voltage)[i].0),
        setup_writes(current, voltage)[SETUP_WRITES - 1] == (AS8510_MOD_CTL_REG, 1u8),
{
}

impl Setup {
    /// A bring-up always has a write due, and the device it configures has a
    /// voltage gain that the channel supports: no write is ever due for
    /// another.
    pub proof fn lemma_write_is_due(self)
        requires
            self.wf(),
        ensures
            self.acknowledged() < SETUP_WRITES,
            self.device().wf(),
            self.device().voltage_gain().fits_voltage(),
    {
        self.device().lemma_voltage_gain_fits();
    }

    /// How `after` moves a bring-up: a failure ends it with the bus error;
    /// an acknowledged write leads to the next write of the same device
    /// or, after the last, to the device.
    pub proof fn lemma_after(self, outcome: Result<(), ErrorKind>)
        requires
            self.wf(),
        ensures
            match outcome {
                Err(kind) => self.after(outcome) == Err::<Progress, As8510Error>(
                    As8510Error::Spi(kind),
                ),
                Ok(()) => if self.acknowledged() + 1 < SETUP_WRITES {
                    &&& self.after(outcome) matches Ok(Progress::Pending(next))
                    &&& next.wf()
                    &&& next.device() == self.device()
                    &&& next.acknowledged() == self.acknowledged() + 1
                } else {
                    self.after(outcome) == Ok::<Progress, As8510Error>(
                        Progress::Ready(self.device()),
                    )
                },
            },
            self.acknowledged() < SETUP_WRITES,
    {
    }

    /// A bring-up issues its writes in the fixed order, one for each
    /// acknowledged write before it, and none after the first failure.
    ///
    /// Let `n` be the number of acknowledged writes at the head of
    /// `outcomes`. Where `n` covers every write that was left, all of them
    /// were issued and the bring-up ends with the device. Where a failure
    /// follows the `n` acknowledged writes, the failed write is the last one
    /// issued and the bring-up ends with that bus error. Otherwise the bus
    /// has not answered further, `n` writes were issued, and the bring-up
    /// has not ended.
    pub proof fn lemma_course(self, outcomes: Seq<Result<(), ErrorKind>>)
        requires
            self.wf(),
        ensures
            ({
                let from = self.acknowledged() as int;
                let n = leading_acks(outcomes) as int;
                let taken = course(self, outcomes);
                if from + n >= SETUP_WRITES {
                    &&& taken.writes == self.plan().subrange(from, SETUP_WRITES as int)
                    &&& taken.end == Some(Ok::<As8510, As8510Error>(self.device()))
                } else if n < outcomes.len() {
                    &&& taken.writes == self.plan().subrange(from, from + n + 1)
                    &&& outcomes[n] matches Err(kind) && taken.end == Some(
                        Err::<As8510, As8510Error>(As8510Error::Spi(kind)),
                    )
                } else {
                    &&& taken.writes == self.plan().subrange(from, from + n)
                    &&& taken.end is None
                }
            }),
        decreases outcomes.len(),
    {
        let from = self.acknowledged() as int;
        let plan = self.plan();
        lemma_setup_writes_legal(self.device().current_gain(), self.device().voltage_gain());
        if outcomes.len() == 0 {
            assert(course(self, outcomes).writes =~= plan.subrange(from, from));
        } else {
            let rest = outcomes.drop_first();
            self.lemma_after(outcomes[0]);
            match self.after(outcomes[0]) {
                Err(error) => {
                    assert(seq![self.due()] =~= plan.subrange(from, from + 1));
                },
                Ok(Progress::Ready(device)) => {
                    assert(seq![self.due()] =~= plan.subrange(from, SETUP_WRITES as int));
                },
                Ok(Progress::Pending(next)) => {
                    next.lemma_course(rest);
                    let n = leading_acks(rest) as int;
                    assert(leading_acks(outcomes) == n + 1);
                    assert(n < rest.len() ==> rest[n] == outcomes[n + 1]);
                    assert(next.plan() == plan);
                    assert forall|to: int| from + 1 <= to <= SETUP_WRITES implies seq![self.due()]
                        + plan.subrange(from + 1, to) =~= plan.subrange(from, to) by {}
                },
            }
        }
    }
}

} // verus!
