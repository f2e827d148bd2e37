//! The driver: which register accesses it makes, and what it makes of their
//! results.

use crate::bus::Exchange;
use crate::conf::{Config, Settings};
use crate::register::Register;
use crate::sample::{axis, axis_of, temperature_of};
use crate::vector::components;
use accelerometer::vector::I32x3;
use vstd::prelude::*;

verus! {

/// Direction bit of an address byte that announces a read.
pub const SPI_READ: u8 = 0x01;

/// Direction bit of an address byte that announces a write.
pub const SPI_WRITE: u8 = 0x00;

/// The identity that an ADXL355 reports.
pub const EXPECTED_DEVICE_ID: u8 = 0xED;

/// The first byte of a frame: the register address in bits 1 to 7 above the
/// direction in bit 0. Bit 7 of `reg` has no place in it.
pub open spec fn address_byte(reg: u8, read: bool) -> u8 {
    ((2 * reg) % 256 + if read {
        1int
    } else {
        0int
    }) as u8
}

/// The frame that writes `value` to the register at `reg`.
pub open spec fn write_frame(reg: u8, value: u8) -> Seq<u8> {
    seq![address_byte(reg, false), value]
}

/// The frame that reads `count` registers from `reg` on: the address byte,
/// then one zero for each byte to clock in.
pub open spec fn read_frame(reg: u8, count: nat) -> Seq<u8> {
    seq![address_byte(reg, true)] + Seq::new(count, |i: int| 0u8)
}

/// An address byte holds the address and the direction apart: the address of
/// a register, which has seven bits, is its upper part, and the direction is
/// its lowest bit.
pub proof fn lemma_address_byte_holds_address_and_direction(reg: u8, read: bool)
    requires
        reg < 0x80,
    ensures
        address_byte(reg, read) / 2 == reg,
        address_byte(reg, read) % 2 == (if read {
            SPI_READ
        } else {
            SPI_WRITE
        }),
{
}

/// Starting is idempotent. Whenever it is asked, the driver answers with the
/// same exchange, the write of the bytes 0x5A and 0x00, and is itself not
/// changed by the asking.
pub proof fn lemma_start_is_idempotent<E>(first: Exchange<E, 2>, second: Exchange<E, 2>)
    requires
        first.writes(write_frame(Register::POWER_CTL.spec_addr(), 0)),
        second.writes(write_frame(Register::POWER_CTL.spec_addr(), 0)),
    ensures
        first == second,
        first.frame@ == seq![0x5Au8, 0x00u8],
{
    assert(first.frame =~= second.frame);
}

/// Why the driver could not be set up.
#[derive(Debug, PartialEq, Eq)]
pub enum Error<E> {
    /// The bus failed during an access.
    Transport(E),
    /// The device reported this identity in place of 0xED.
    UnexpectedDeviceId(u8),
}

/// The register access that a set-up waits for.
#[derive(Clone, Copy, Debug, PartialEq, Eq)]
pub enum Stage {
    /// The read of the identity register.
    Identify,
    /// The write of the filter register.
    Filter,
    /// The write of the range register.
    Range,
}

/// A driver that is being set up.
#[derive(Debug)]
pub struct Setup {
    settings: Settings,
    stage: Stage,
    check_id: bool,
}

/// Where setting up the driver stands.
#[derive(Debug)]
pub enum Progress<E> {
    /// The exchange has to be carried out and its result handed to
    /// [`Setup::step`].
    Next(Setup, Exchange<E, 2>),
    /// The device is identified and configured.
    Ready(Adxl355),
    /// Setting up has failed, and there is no driver.
    Failed(Error<E>),
}

/// ADXL355 driver
#[derive(Debug)]
pub struct Adxl355 {
    settings: Settings,
}

impl Setup {
    /// The settings that the device will be given.
    pub closed spec fn settings(&self) -> Settings {
        self.settings
    }

    /// The access that is under way.
    pub closed spec fn stage(&self) -> Stage {
        self.stage
    }

    /// Whether the set-up fails on a device that does not report the identity
    /// of an ADXL355.
    pub closed spec fn checks_identity(&self) -> bool {
        self.check_id
    }

    /// Whether `next` is this set-up at the stage `stage`.
    pub open spec fn moves_to(&self, stage: Stage, next: Setup) -> bool {
        &&& next.settings() == self.settings()
        &&& next.checks_identity() == self.checks_identity()
        &&& next.stage() == stage
    }

    /// Takes the result of the exchange that was asked for last and says how
    /// to go on.
    ///
    /// A fault of the bus ends the set-up at any stage. So does an identity
    /// other than 0xED, where the set-up checks it. After the identity, the
    /// filter register is written, then the range register, and then the
    /// driver is ready.
    pub fn step<E>(self, outcome: Result<[u8; 2], E>) -> (progress: Progress<E>)
        ensures
            match outcome {
                Err(fault) => progress == Progress::Failed(Error::Transport(fault)),
                Ok(reply) => match self.stage() {
                    Stage::Identify => if self.checks_identity() && reply[1]
                        != EXPECTED_DEVICE_ID {
                        progress == Progress::<E>::Failed(Error::UnexpectedDeviceId(reply[1]))
                    } else {
                        &&& progress matches Progress::Next(setup, exchange)
                        &&& self.moves_to(Stage::Filter, setup)
                        &&& exchange.writes(
                            write_frame(Register::FILTER.spec_addr(), self.settings().spec_filter()),
                        )
                    },
                    Stage::Filter => {
                        &&& progress matches Progress::Next(setup, exchange)
                        &&& self.moves_to(Stage::Range, setup)
                        &&& exchange.writes(
                            write_frame(
                                Register::RANGE.spec_addr(),
                                self.settings().range.spec_val(),
                            ),
                        )
                    },
                    Stage::Range => {
                        &&& progress matches Progress::Ready(driver)
                        &&& driver@ == self.settings()
                    },
                },
            },
    {
        match outcome {
            Err(fault) => Progress::Failed(Error::Transport(fault)),
            Ok(reply) => match self.stage {
                Stage::Identify => {
                    let id: u8 = reply[1];
                    if self.check_id && id != EXPECTED_DEVICE_ID {
                        Progress::Failed(Error::UnexpectedDeviceId(id))
                    } else {
                        Progress::Next(
                            Setup { stage: Stage::Filter, ..self },
                            Adxl355::write_reg(Register::FILTER.addr(), self.settings.filter()),
                        )
                    }
                },
                Stage::Filter => Progress::Next(
                    Setup { stage: Stage::Range, ..self },
                    Adxl355::write_reg(Register::RANGE.addr(), self.settings.range.val()),
                ),
                Stage::Range => Progress::Ready(Adxl355 { settings: self.settings }),
            },
        }
    }
}

impl View for Adxl355 {
    type V = Settings;

    /// The settings that the device was given.
    closed spec fn view(&self) -> Settings {
        self.settings
    }
}

impl Adxl355 {
    /// Whether `progress` is the beginning of a set-up with `settings`: the
    /// identity of the device is asked for.
    pub open spec fn begins<E>(settings: Settings, check_id: bool, progress: Progress<E>) -> bool {
        &&& progress matches Progress::Next(setup, exchange)
        &&& setup.settings() == settings
        &&& setup.checks_identity() == check_id
        &&& setup.stage() == Stage::Identify
        &&& exchange.transfers(read_frame(Register::DEVID.spec_addr(), 1))
    }

    /// Begins to set up a driver with default configuration.
    pub fn default<E>() -> (progress: Progress<E>)
        ensures
            Adxl355::begins(Config::defaults(), true, progress),
    {
        Adxl355::new(&Config::new())
    }

    /// Takes a config object and begins to set up a driver with it. The
    /// set-up fails on a device that does not report the identity of an
    /// ADXL355.
    pub fn new<E>(config: &Config) -> (progress: Progress<E>)
        ensures
            Adxl355::begins(config@, true, progress),
    {
        let setup = Setup { settings: config.resolve(), stage: Stage::Identify, check_id: true };
        Progress::Next(setup, Adxl355::read_reg(Register::DEVID.addr()))
    }

    /// Takes a config object and begins to set up a driver with it. The
    /// identity of the device is read, but the set-up goes on whatever it is:
    /// the caller answers for the device being an ADXL355.
    pub fn new_without_id_check<E>(config: &Config) -> (progress: Progress<E>)
        ensures
            Adxl355::begins(config@, false, progress),
    {
        let setup = Setup { settings: config.resolve(), stage: Stage::Identify, check_id: false };
        Progress::Next(setup, Adxl355::read_reg(Register::DEVID.addr()))
    }

    /// Puts the device in `Measurement mode`. The default after power up is
    /// `Standby mode`.
    ///
    /// The exchange is the same write of zero to the power control register
    /// each time, and the driver is as it was.
    pub fn start<E>(&self) -> (exchange: Exchange<E, 2>)
        ensures
            exchange.writes(write_frame(Register::POWER_CTL.spec_addr(), 0)),
            exchange.writes(seq![0x5Au8, 0x00u8]),
    {
        Adxl355::write_reg(Register::POWER_CTL.addr(), 0)
    }

    /// The read of both temperature registers in one burst. Its reply goes to
    /// [`Adxl355::read_temp_raw`].
    pub fn request_temp_raw<E>(&self) -> (exchange: Exchange<E, 3>)
        ensures
            exchange.transfers(read_frame(Register::TEMP2.spec_addr(), 2)),
    {
        let reg: u8 = Register::TEMP2.addr();
        assert((reg << 1) | 0x01u8 == (2 * reg) % 256 + 1) by (bit_vector);
        let bytes: [u8; 3] = [(reg << 1) | SPI_READ, 0, 0];
        assert(bytes@ =~= read_frame(reg, 2));
        Adxl355::read(bytes)
    }

    /// Returns the raw contents of the temperature registers, which `reply`
    /// holds in its bytes 1 and 2.
    pub fn read_temp_raw(&self, reply: &[u8; 3]) -> (count: u16)
        ensures
            count == temperature_of(reply[1], reply[2]),
            count < 4096,
    {
        let temp2: u8 = reply[1];
        let temp1: u8 = reply[2];
        assert((((temp2 & 0x0F) as u16) << 8) | ((temp1 as u16) & 0x00FF) == (temp2 % 16) * 256
            + temp1) by (bit_vector);
        let temp_h: u16 = ((temp2 & 0x0F) as u16) << 8;
        let temp_l: u16 = (temp1 as u16) & 0x00FF;

        temp_h | temp_l
    }

    /// The read of the identity register. Its reply goes to
    /// [`Adxl355::get_device_id`].
    pub fn request_device_id<E>(&self) -> (exchange: Exchange<E, 2>)
        ensures
            exchange.transfers(read_frame(Register::DEVID.spec_addr(), 1)),
    {
        Adxl355::read_reg(Register::DEVID.addr())
    }

    /// Get the device ID, which `reply` holds in its byte 1.
    pub fn get_device_id(&self, reply: &[u8; 2]) -> (id: u8)
        ensures
            id == reply[1],
    {
        reply[1]
    }

    /// The read of the nine data registers in one burst, from the highest byte
    /// of the x axis on. Its reply goes to [`Adxl355::accel_raw`].
    pub fn request_accel_raw<E>(&self) -> (exchange: Exchange<E, 10>)
        ensures
            exchange.transfers(read_frame(Register::XDATA3.spec_addr(), 9)),
    {
        let reg: u8 = Register::XDATA3.addr();
        assert((reg << 1) | 0x01u8 == (2 * reg) % 256 + 1) by (bit_vector);
        let mut bytes: [u8; 10] = [0u8; 10];
        bytes[0] = (reg << 1) | SPI_READ;
        assert(bytes@ =~= read_frame(reg, 9));
        Adxl355::read(bytes)
    }

    /// Gets the acceleration vector reading that `reply` holds: the x axis in
    /// its bytes 1 to 3, the y axis in bytes 4 to 6, the z axis in bytes 7 to 9.
    pub fn accel_raw(&self, reply: &[u8; 10]) -> (vector: I32x3)
        ensures
            components(vector).len() == 3,
            components(vector)[0] == axis_of(reply[1], reply[2], reply[3]),
            components(vector)[1] == axis_of(reply[4], reply[5], reply[6]),
            components(vector)[2] == axis_of(reply[7], reply[8], reply[9]),
    {
        // combine 3 bytes into one i32 value
        let x: i32 = axis(reply[1], reply[2], reply[3]);
        let y: i32 = axis(reply[4], reply[5], reply[6]);
        let z: i32 = axis(reply[7], reply[8], reply[9]);

        I32x3::new(x, y, z)
    }

    /// The output data rate that the device was given, in thousandths of a
    /// hertz.
    pub fn sample_rate(&self) -> (rate: u32)
        ensures
            rate == self@.odr.spec_rate_millihertz(),
    {
        self.settings.odr.rate_millihertz()
    }

    /// The settings that the device was given.
    pub fn settings(&self) -> (settings: Settings)
        ensures
            settings == self@,
    {
        self.settings
    }

    /// The write of `value` to the register at `reg`.
    pub fn write_reg<E>(reg: u8, value: u8) -> (exchange: Exchange<E, 2>)
        ensures
            exchange.writes(write_frame(reg, value)),
    {
        assert((reg << 1) | 0x00u8 == (2 * reg) % 256) by (bit_vector);
        let bytes: [u8; 2] = [(reg << 1) | SPI_WRITE, value];
        assert(bytes@ =~= write_frame(reg, value));
        Exchange::write(bytes)
    }

    /// The read of the register at `reg`. Its value is byte 1 of the reply.
    pub fn read_reg<E>(reg: u8) -> (exchange: Exchange<E, 2>)
        ensures
            exchange.transfers(read_frame(reg, 1)),
    {
        assert((reg << 1) | 0x01u8 == (2 * reg) % 256 + 1) by (bit_vector);
        let bytes: [u8; 2] = [(reg << 1) | SPI_READ, 0];
        assert(bytes@ =~= read_frame(reg, 1));
        Adxl355::read(bytes)
    }

    /// The transfer of a frame that is made up already: the reply holds, from
    /// byte 1 on, the registers from the one that byte 0 of `bytes` names.
    pub fn read<E, const N: usize>(bytes: [u8; N]) -> (exchange: Exchange<E, N>)
        ensures
            exchange.transfers(bytes@),
    {
        Exchange::transfer(bytes)
    }
}

} // verus!
