//! The driver for asynchronous hosts.
//!
//! Each operation returns the [`Exchange`] that carries it out; an
//! asynchronous host runs it, awaiting each bus transfer and each wait, on
//! the bus and the delay source that the driver holds.
use crate::command::Command;
use crate::exchange::{command_exchange, read_exchange, stretched_exchange, Exchange, Expect};
use crate::{ClockStretching, Rate, Repeatability};
use vstd::prelude::*;

verus! {

/// Represents an async driver for the SHT3x device.
#[derive(Default)]
pub struct Sht3x<I2C, A, D> {
    i2c: I2C,
    address: A,
    delay: D,
}

impl<I2C, D> Sht3x<I2C, u8, D> {
    /// The bus the driver talks over.
    pub closed spec fn bus(self) -> I2C {
        self.i2c
    }

    /// The sensor's seven-bit address.
    pub closed spec fn sensor_address(self) -> u8 {
        self.address
    }

    /// The source of the waits between a command and its answer.
    pub closed spec fn delay_source(self) -> D {
        self.delay
    }

    /// Instantiate a new async SHT3x device driver.
    pub fn new(i2c: I2C, address: u8, delay: D) -> (sensor: Self)
        ensures
            sensor.bus() == i2c,
            sensor.sensor_address() == address,
            sensor.delay_source() == delay,
    {
        Self { address, i2c, delay }
    }

    /// The sensor's seven-bit address.
    pub fn address(&self) -> (address: u8)
        ensures
            address == self.sensor_address(),
    {
        self.address
    }

    /// The bus, for the host to carry out an exchange's actions on.
    pub fn i2c(&mut self) -> (bus: &mut I2C)
        ensures
            *bus == old(self).bus(),
            final(self).bus() == *final(bus),
            final(self).sensor_address() == old(self).sensor_address(),
            final(self).delay_source() == old(self).delay_source(),
    {
        &mut self.i2c
    }

    /// The delay source, for the host to carry out an exchange's waits.
    pub fn delay(&mut self) -> (delay: &mut D)
        ensures
            *delay == old(self).delay_source(),
            final(self).delay_source() == *final(delay),
            final(self).sensor_address() == old(self).sensor_address(),
            final(self).bus() == old(self).bus(),
    {
        &mut self.delay
    }

    /// Perform a single-shot measurement with the given repeatability: the
    /// single-shot command without clock stretching, the measurement time,
    /// then six bytes of checked words holding the measurement.
    pub fn measure_singleshot(&self, repeatability: Repeatability) -> (exchange: Exchange)
        ensures
            exchange@ == read_exchange(
                Command::SingleShot(ClockStretching::Disabled, repeatability),
                Seq::empty(),
                6,
                Expect::Measurement,
            ),
    {
        Exchange::read_words(
            Command::SingleShot(ClockStretching::Disabled, repeatability),
            None,
            6,
            Expect::Measurement,
        )
    }

    /// Perform a single-shot measurement with clock stretching: the command
    /// and the read of six bytes in one transaction.
    pub fn measure_singleshot_with_clock_stretching(&self, repeatability: Repeatability) -> (exchange: Exchange)
        ensures
            exchange@ == stretched_exchange(
                Command::SingleShot(ClockStretching::Enabled, repeatability),
                6,
                Expect::Measurement,
            ),
    {
        Exchange::stretched(
            Command::SingleShot(ClockStretching::Enabled, repeatability),
            6,
            Expect::Measurement,
        )
    }

    /// Begin publishing periodic measurements.
    pub fn periodic_measurement_start(&self, repeatability: Repeatability, rate: Rate) -> (exchange: Exchange)
        ensures
            exchange@ == command_exchange(Command::Periodic(rate, repeatability)),
    {
        Exchange::command(Command::Periodic(rate, repeatability))
    }

    /// Fetch the latest periodic measurement.
    pub fn periodic_measurement_fetch(&self) -> (exchange: Exchange)
        ensures
            exchange@ == read_exchange(Command::FetchData, Seq::empty(), 6, Expect::Measurement),
    {
        Exchange::read_words(Command::FetchData, None, 6, Expect::Measurement)
    }

    /// Start periodic measurements using Accelerated Response Time (ART).
    pub fn periodic_measurement_start_with_art(&self) -> (exchange: Exchange)
        ensures
            exchange@ == command_exchange(Command::PeriodicWithART),
    {
        Exchange::command(Command::PeriodicWithART)
    }

    /// Stop publishing periodic measurements.
    pub fn periodic_measurement_stop(&self) -> (exchange: Exchange)
        ensures
            exchange@ == command_exchange(Command::Break),
    {
        Exchange::command(Command::Break)
    }

    /// Issue a soft reset to the device.
    pub fn soft_reset(&self) -> (exchange: Exchange)
        ensures
            exchange@ == command_exchange(Command::SoftReset),
    {
        Exchange::command(Command::SoftReset)
    }

    /// Enable the onboard heater.
    pub fn heater_enable(&self) -> (exchange: Exchange)
        ensures
            exchange@ == command_exchange(Command::HeaterEnable),
    {
        Exchange::command(Command::HeaterEnable)
    }

    /// Disable the onboard heater.
    pub fn heater_disable(&self) -> (exchange: Exchange)
        ensures
            exchange@ == command_exchange(Command::HeaterDisable),
    {
        Exchange::command(Command::HeaterDisable)
    }

    /// Read the contents of the status register: the status command, the
    /// minimum wait, then one checked word.
    pub fn status_fetch(&self) -> (exchange: Exchange)
        ensures
            exchange@ == read_exchange(Command::StatusFetch, Seq::empty(), 3, Expect::Status),
    {
        Exchange::read_words(Command::StatusFetch, None, 3, Expect::Status)
    }

    /// Clear the status register.
    pub fn status_clear(&self) -> (exchange: Exchange)
        ensures
            exchange@ == command_exchange(Command::StatusClear),
    {
        Exchange::command(Command::StatusClear)
    }
}

} // verus!
