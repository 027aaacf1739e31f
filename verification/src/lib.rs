//! A platform agnostic driver core for the Sensirion SHT3x series of
//! temperature and humidity sensors.
//!
//! The library decides what goes over the I²C bus and what the answers
//! mean: the command codes, the waits, the checksums and the decoding of
//! the sensor's words. A host (blocking or asynchronous) carries out the
//! bus transfers that an [`exchange::Exchange`] asks for and hands back
//! what the bus answered.
use vstd::prelude::*;

pub mod asynchronous;
pub mod blocking;
pub mod buffer;
pub mod command;
pub mod crc;
pub mod error;
pub mod exchange;
pub mod status;

pub use status::Status;
use buffer::{be_value, get_u16};
use crc::{checked_words, lemma_checked_words_valid, words_valid};

verus! {

/// The sensor's I²C address, chosen by the level of its ADDR pin.
#[derive(Debug, Clone, Copy, PartialEq, Eq, Structural)]
pub enum AddressPin {
    /// The default address is 0x44
    Low,
    /// The optional secondary address is 0x45
    High,
}

/// The seven-bit I²C address that a pin level selects.
pub open spec fn address_of(pin: AddressPin) -> u8 {
    match pin {
        AddressPin::Low => 0x44u8,
        AddressPin::High => 0x45u8,
    }
}

impl From<AddressPin> for u8 {
    fn from(pin: AddressPin) -> (address: u8) {
        match pin {
            AddressPin::Low => 0x44,
            AddressPin::High => 0x45,
        }
    }
}

impl vstd::std_specs::convert::FromSpecImpl<AddressPin> for u8 {
    open spec fn obeys_from_spec() -> bool {
        true
    }

    open spec fn from_spec(pin: AddressPin) -> u8 {
        address_of(pin)
    }
}

impl Default for AddressPin {
    fn default() -> (pin: Self)
        ensures
            pin == AddressPin::Low,
    {
        AddressPin::Low
    }
}

/// When a command with clock stretching is issued, the sensor acknowledges
/// with an ACK upon receiving a read header and then pulls down the SCL
/// line until the measurement is completed.
#[derive(Debug, Clone, Copy, PartialEq, Eq, Structural)]
pub enum ClockStretching {
    /// Enable clock stretching
    Enabled,
    /// Disable clock stretching
    Disabled,
}

/// The specified repeatability corresponds to three times the standard
/// deviation (3σ) of multiple consecutive measurements under constant
/// ambient conditions.
#[derive(Debug, Clone, Copy, PartialEq, Eq, Structural)]
pub enum Repeatability {
    /// 3 times the standard deviation: 0.15 °C, 0.21 %RH
    Low,
    /// 3 times the standard deviation: 0.08 °C, 0.15 %RH
    Medium,
    /// 3 times the standard deviation: 0.04 °C, 0.08 %RH
    High,
}

/// The data acquisition rate of periodic measurements.
#[derive(Debug, Clone, Copy, PartialEq, Eq, Structural)]
pub enum Rate {
    /// Rate: 0.5 measurements per second.
    R0_5,
    /// Rate: 1 measurement per second.
    R1,
    /// Rate: 2 measurements per second.
    R2,
    /// Rate: 4 measurements per second.
    R4,
    /// Rate: 10 measurements per second.
    R10,
}

/// A sensor measurement: the two 16-bit signals the sensor reports.
///
/// `temperature` stands for `-45 + 175 * temperature / 65535` degrees
/// Celsius and `relative_humidity` for `100 * relative_humidity / 65535`
/// percent.
#[derive(Debug, Clone, Copy, PartialEq, Eq, Structural)]
pub struct Measurement {
    /// The temperature signal reported by the sensor.
    pub temperature: u16,
    /// The relative humidity signal reported by the sensor.
    pub relative_humidity: u16,
}

/// The measurement that a read of the sensor holds: the relative humidity
/// word in bytes 0 and 1, the temperature word in bytes 3 and 4, most
/// significant byte first (bytes 2 and 5 are their checksums).
pub open spec fn measurement_of(bytes: Seq<u8>) -> Measurement {
    Measurement {
        relative_humidity: be_value(bytes[0], bytes[1]),
        temperature: be_value(bytes[3], bytes[4]),
    }
}

/// How a measurement comes over the bus: the relative humidity word, then
/// the temperature word, each with its checksum.
pub open spec fn measurement_bytes(m: Measurement) -> Seq<u8> {
    checked_words(seq![m.relative_humidity, m.temperature])
}

/// The bytes of a measurement as they come over the bus pass the checksum
/// test and decode to that very measurement.
pub proof fn lemma_measurement_roundtrip(m: Measurement)
    ensures
        measurement_bytes(m).len() == 6,
        words_valid(measurement_bytes(m)),
        measurement_of(measurement_bytes(m)) == m,
{
    let words = seq![m.relative_humidity, m.temperature];
    lemma_checked_words_valid(words);
    assert(words.drop_last() =~= seq![m.relative_humidity]);
    assert(checked_words(seq![m.relative_humidity]) =~= crc::checked_word(m.relative_humidity))
        by {
        assert(seq![m.relative_humidity].drop_last() =~= Seq::<u16>::empty());
    }
    assert(measurement_bytes(m) =~= crc::checked_word(m.relative_humidity) + crc::checked_word(
        m.temperature,
    ));
    buffer::lemma_be_roundtrip(m.temperature);
    buffer::lemma_be_roundtrip(m.relative_humidity);
}

impl Measurement {
    /// Decodes the bytes read for a measurement: relative humidity first,
    /// then temperature.
    pub fn from_bytes(bytes: &[u8]) -> (measurement: Measurement)
        requires
            bytes@.len() >= 5,
        ensures
            measurement == measurement_of(bytes@),
    {
        let temperature = vstd::slice::slice_subrange(bytes, 3, 5);
        Measurement { relative_humidity: get_u16(bytes), temperature: get_u16(temperature) }
    }
}

} // verus!
