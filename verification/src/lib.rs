//! Protocol core of a driver for the AS8510 current and voltage sensing
//! front-end.
//!
//! The crate holds every decision the driver makes and leaves the serial bus
//! to its caller: each operation hands out the next bus transaction and takes
//! back what the bus answered.
//!
//! A sensor is brought up with [`As8510::new`], which starts a
//! [`Setup`](setup::Setup): the ordered register writes that configure the
//! chip and start sampling. The configured [`As8510`] then measures with
//! [`As8510::get_current`] and [`As8510::get_voltage`], each of which starts
//! a [`Measurement`](measure::Measurement): the status read that gates the
//! channel and the data read behind it.
//!
//! ```text
//! let mut setup = As8510::new(Gain::Gain100, Gain::Gain25);
//! let mut device = loop {
//!     let frame = setup.next_write()?;
//!     let outcome = /* one transaction that writes `frame` */;
//!     match setup.advance(outcome)? {
//!         Progress::Pending(next) => setup = next,
//!         Progress::Ready(device) => break device,
//!     }
//! };
//!
//! let mut measurement = device.get_current()?;
//! let tenths_of_an_ampere = loop {
//!     let answer = /* one transaction that writes `measurement.command()`
//!                     and then reads `measurement.len()` bytes */;
//!     match device.resume(measurement, answer)? {
//!         Poll::Pending(next) => measurement = next,
//!         Poll::Ready(tenths) => break tenths,
//!     }
//! };
//! ```

pub mod convert;
pub mod device;
pub mod errors;
pub mod gain;
pub mod measure;
pub mod registers;
pub mod setup;
pub mod status;

pub use device::As8510;
pub use errors::As8510Error;
pub use gain::Gain;
pub use measure::{Channel, Measurement, Poll, Stage};
pub use setup::{Progress, Setup};
pub use status::StatusReg;
