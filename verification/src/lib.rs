//! Protocol core of a driver for the ADXL355 three-axis accelerometer.
//!
//! The crate knows the register map of the device, the settings it can be
//! given, how a register access is framed on the serial bus and how the bytes
//! that come back are turned into samples. It never touches a bus itself.
//! Every access is an [`Exchange`]: a small machine that tells its owner which
//! line to drive or which frame to clock next, and is told what came of it.
//!
//! # Usage
//!
//! An exchange is carried out by asking it for one action after the other:
//!
//! ```ignore
//! fn run<const N: usize>(mut exchange: Exchange<BusError, N>) -> Result<[u8; N], BusError> {
//!     loop {
//!         let event = match exchange.action() {
//!             Action::Select => { /* drive chip select low */ Event::Done }
//!             Action::Write(frame) => { /* clock the frame out */ Event::Done }
//!             Action::Transfer(frame) => { /* clock the frame out and in */ Event::Reply(frame) }
//!             Action::Deselect => { /* drive chip select high */ Event::Done }
//!         };
//!         match exchange.feed(event) {
//!             Step::Pending(next) => exchange = next,
//!             Step::Finished(outcome) => return outcome,
//!         }
//!     }
//! }
//! ```
//!
//! Setting the driver up takes three accesses. [`Adxl355::new`] asks for the
//! first one; the result of each goes to [`Setup::step`], which asks for the
//! next one, hands out the driver or reports why there is none:
//!
//! ```ignore
//! let mut progress = Adxl355::new(Config::new().odr(ODR_LPF::ODR_31_25_Hz).range(Range::_2G));
//! let driver = loop {
//!     progress = match progress {
//!         Progress::Next(setup, exchange) => setup.step(run(exchange)),
//!         Progress::Ready(driver) => break driver,
//!         Progress::Failed(error) => return Err(error),
//!     };
//! };
//! ```
//!
//! The driver then asks for the accesses it needs: [`Adxl355::start`] for
//! the one that starts the measurements, and the functions whose names begin
//! with `request_` for those that read. It reads the reply to each of these
//! with the function named after what is read: [`Adxl355::get_device_id`],
//! [`Adxl355::read_temp_raw`] and [`Adxl355::accel_raw`].
//!
//! ```ignore
//! run(driver.start())?;
//! let reply = run(driver.request_accel_raw())?;
//! let accel = driver.accel_raw(&reply);
//! ```
//!
//! # References
//!
//! - [Register Map][1]
//!
//! [1]: https://www.analog.com/media/en/technical-documentation/data-sheets/adxl354_355.pdf

pub mod bus;
pub mod conf;
pub mod driver;
pub mod register;
pub mod sample;
pub mod vector;

pub use accelerometer::vector::I32x3;

pub use crate::bus::{Action, Event, Exchange, Phase, Step};
pub use crate::conf::{Config, Range, Settings, HPF_CORNER, ODR_LPF};
pub use crate::driver::{Adxl355, Error, Progress, Setup, Stage};
pub use crate::register::Register;
