//! The sensor's commands: their 16-bit codes and the waits they need.
use crate::{ClockStretching, Rate, Repeatability};
use vstd::prelude::*;

verus! {

/// Minimum wait time between two commands, in milliseconds.
pub const MIN_WAIT_BETWEEN_COMMAND_MS: u32 = 1;

/// Nanoseconds in a millisecond.
pub const NANOS_PER_MILLI: u32 = 1_000_000;

/// Every command the sensor understands.
#[derive(Debug, Clone, Copy, PartialEq, Eq, Structural)]
pub enum Command {
    /// Execute a single measurement.
    SingleShot(ClockStretching, Repeatability),
    /// Initiate periodic data acquisition.
    Periodic(Rate, Repeatability),
    /// Retrieve data from a periodic measurement.
    FetchData,
    /// Initiate periodic data acquisition with Accelerated Response
    /// Time (ART).
    PeriodicWithART,
    /// Halt periodic data acquisition.
    Break,
    /// Perform a soft reset to bring the system to a predetermined
    /// state without disconnecting the power supply.
    SoftReset,
    /// Enable the heater.
    HeaterEnable,
    /// Disable the heater.
    HeaterDisable,
    /// Read the status register.
    StatusFetch,
    /// Clear specific flags (Bit 15, 11, 10, 4) in the status
    /// register, setting them to zero.
    StatusClear,
}

/// The 16-bit code of a command, as the datasheet lists it.
pub open spec fn command_code(c: Command) -> u16 {
    match c {
        Command::SingleShot(ClockStretching::Enabled, Repeatability::Low) => 0x2c06,
        Command::SingleShot(ClockStretching::Enabled, Repeatability::Medium) => 0x2c0d,
        Command::SingleShot(ClockStretching::Enabled, Repeatability::High) => 0x2c10,
        Command::SingleShot(ClockStretching::Disabled, Repeatability::Low) => 0x2400,
        Command::SingleShot(ClockStretching::Disabled, Repeatability::Medium) => 0x240b,
        Command::SingleShot(ClockStretching::Disabled, Repeatability::High) => 0x2416,
        Command::Periodic(Rate::R0_5, Repeatability::Low) => 0x2032,
        Command::Periodic(Rate::R0_5, Repeatability::Medium) => 0x2024,
        Command::Periodic(Rate::R0_5, Repeatability::High) => 0x202f,
        Command::Periodic(Rate::R1, Repeatability::Low) => 0x2130,
        Command::Periodic(Rate::R1, Repeatability::Medium) => 0x2126,
        Command::Periodic(Rate::R1, Repeatability::High) => 0x212d,
        Command::Periodic(Rate::R2, Repeatability::Low) => 0x2236,
        Command::Periodic(Rate::R2, Repeatability::Medium) => 0x2220,
        Command::Periodic(Rate::R2, Repeatability::High) => 0x222b,
        Command::Periodic(Rate::R4, Repeatability::Low) => 0x2334,
        Command::Periodic(Rate::R4, Repeatability::Medium) => 0x2322,
        Command::Periodic(Rate::R4, Repeatability::High) => 0x2329,
        Command::Periodic(Rate::R10, Repeatability::Low) => 0x2737,
        Command::Periodic(Rate::R10, Repeatability::Medium) => 0x2721,
        Command::Periodic(Rate::R10, Repeatability::High) => 0x272a,
        Command::FetchData => 0xe000,
        Command::PeriodicWithART => 0x2b32,
        Command::Break => 0x3093,
        Command::SoftReset => 0x30a2,
        Command::HeaterEnable => 0x306d,
        Command::HeaterDisable => 0x3066,
        Command::StatusFetch => 0xf32d,
        Command::StatusClear => 0x3041,
    }
}

/// How long the sensor needs after a command before it can answer, in
/// nanoseconds: the measurement time of a single shot, 1.5 ms after a
/// soft reset, and the minimum wait between two commands otherwise.
pub open spec fn command_delay_ns(c: Command) -> u32 {
    match c {
        Command::SingleShot(_, Repeatability::Low) => 4_000_000,
        Command::SingleShot(_, Repeatability::Medium) => 6_000_000,
        Command::SingleShot(_, Repeatability::High) => 15_000_000,
        Command::SoftReset => 1_500_000,
        _ => 1_000_000,
    }
}

impl Command {
    /// The command's 16-bit code.
    pub fn code(self) -> (code: u16)
        ensures
            code == command_code(self),
    {
        match self {
            Command::SingleShot(clock_stretching, repeatability) => match clock_stretching {
                ClockStretching::Enabled => match repeatability {
                    Repeatability::Low => 0x2c06,
                    Repeatability::Medium => 0x2c0d,
                    Repeatability::High => 0x2c10,
                },
                ClockStretching::Disabled => match repeatability {
                    Repeatability::Low => 0x2400,
                    Repeatability::Medium => 0x240b,
                    Repeatability::High => 0x2416,
                },
            },
            Command::Periodic(rate, repeatability) => match rate {
                Rate::R0_5 => match repeatability {
                    Repeatability::Low => 0x2032,
                    Repeatability::Medium => 0x2024,
                    Repeatability::High => 0x202f,
                },
                Rate::R1 => match repeatability {
                    Repeatability::Low => 0x2130,
                    Repeatability::Medium => 0x2126,
                    Repeatability::High => 0x212d,
                },
                Rate::R2 => match repeatability {
                    Repeatability::Low => 0x2236,
                    Repeatability::Medium => 0x2220,
                    Repeatability::High => 0x222b,
                },
                Rate::R4 => match repeatability {
                    Repeatability::Low => 0x2334,
                    Repeatability::Medium => 0x2322,
                    Repeatability::High => 0x2329,
                },
                Rate::R10 => match repeatability {
                    Repeatability::Low => 0x2737,
                    Repeatability::Medium => 0x2721,
                    Repeatability::High => 0x272a,
                },
            },
            Command::FetchData => 0xe000,
            Command::PeriodicWithART => 0x2b32,
            Command::Break => 0x3093,
            Command::SoftReset => 0x30a2,
            Command::HeaterEnable => 0x306d,
            Command::HeaterDisable => 0x3066,
            Command::StatusFetch => 0xf32d,
            Command::StatusClear => 0x3041,
        }
    }

    /// How long to wait after sending the command before reading its
    /// answer, in nanoseconds.
    pub fn delay_ns(self) -> (ns: u32)
        ensures
            ns == command_delay_ns(self),
    {
        match self {
            Command::SingleShot(_, repeatability) => match repeatability {
                Repeatability::Low => 4 * NANOS_PER_MILLI,
                Repeatability::Medium => 6 * NANOS_PER_MILLI,
                Repeatability::High => 15 * NANOS_PER_MILLI,
            },
            Command::SoftReset => 1_500_000,
            _ => MIN_WAIT_BETWEEN_COMMAND_MS * NANOS_PER_MILLI,
        }
    }
}

impl From<Command> for u16 {
    fn from(command: Command) -> (code: u16) {
        command.code()
    }
}

impl vstd::std_specs::convert::FromSpecImpl<Command> for u16 {
    open spec fn obeys_from_spec() -> bool {
        true
    }

    open spec fn from_spec(command: Command) -> u16 {
        command_code(command)
    }
}

/// The command codes of the SHT3x datasheet, command by command.
pub proof fn lemma_datasheet_codes()
    ensures
        command_code(Command::SingleShot(ClockStretching::Enabled, Repeatability::High)) == 0x2c10u16,
        command_code(Command::SingleShot(ClockStretching::Enabled, Repeatability::Medium)) == 0x2c0du16,
        command_code(Command::SingleShot(ClockStretching::Enabled, Repeatability::Low)) == 0x2c06u16,
        command_code(Command::SingleShot(ClockStretching::Disabled, Repeatability::High)) == 0x2416u16,
        command_code(Command::SingleShot(ClockStretching::Disabled, Repeatability::Medium)) == 0x240bu16,
        command_code(Command::SingleShot(ClockStretching::Disabled, Repeatability::Low)) == 0x2400u16,
        command_code(Command::Periodic(Rate::R0_5, Repeatability::High)) == 0x202fu16,
        command_code(Command::Periodic(Rate::R0_5, Repeatability::Medium)) == 0x2024u16,
        command_code(Command::Periodic(Rate::R0_5, Repeatability::Low)) == 0x2032u16,
        command_code(Command::Periodic(Rate::R1, Repeatability::High)) == 0x212du16,
        command_code(Command::Periodic(Rate::R1, Repeatability::Medium)) == 0x2126u16,
        command_code(Command::Periodic(Rate::R1, Repeatability::Low)) == 0x2130u16,
        command_code(Command::Periodic(Rate::R2, Repeatability::High)) == 0x222bu16,
        command_code(Command::Periodic(Rate::R2, Repeatability::Medium)) == 0x2220u16,
        command_code(Command::Periodic(Rate::R2, Repeatability::Low)) == 0x2236u16,
        command_code(Command::Periodic(Rate::R4, Repeatability::High)) == 0x2329u16,
        command_code(Command::Periodic(Rate::R4, Repeatability::Medium)) == 0x2322u16,
        command_code(Command::Periodic(Rate::R4, Repeatability::Low)) == 0x2334u16,
        command_code(Command::Periodic(Rate::R10, Repeatability::High)) == 0x272au16,
        command_code(Command::Periodic(Rate::R10, Repeatability::Medium)) == 0x2721u16,
        command_code(Command::Periodic(Rate::R10, Repeatability::Low)) == 0x2737u16,
        command_code(Command::FetchData) == 0xe000u16,
        command_code(Command::PeriodicWithART) == 0x2b32u16,
        command_code(Command::Break) == 0x3093u16,
        command_code(Command::SoftReset) == 0x30a2u16,
        command_code(Command::HeaterEnable) == 0x306du16,
        command_code(Command::HeaterDisable) == 0x3066u16,
        command_code(Command::StatusFetch) == 0xf32du16,
        command_code(Command::StatusClear) == 0x3041u16,
{
}

/// The most significant byte of a measurement command names its mode: 0x2C
/// for a single shot with clock stretching, 0x24 without, and for periodic
/// acquisition 0x20, 0x21, 0x22, 0x23 or 0x27 by rate; the repeatability
/// is carried in the least significant byte alone.
pub proof fn lemma_code_high_byte(cs: ClockStretching, rate: Rate, p: Repeatability)
    ensures
        command_code(Command::SingleShot(cs, p)) / 256 == match cs {
            ClockStretching::Enabled => 0x2cu16,
            ClockStretching::Disabled => 0x24u16,
        },
        command_code(Command::Periodic(rate, p)) / 256 == match rate {
            Rate::R0_5 => 0x20u16,
            Rate::R1 => 0x21u16,
            Rate::R2 => 0x22u16,
            Rate::R4 => 0x23u16,
            Rate::R10 => 0x27u16,
        },
{
}

/// How long a single shot takes depends on its repeatability alone, not on
/// clock stretching, and is the datasheet's longest measurement time:
/// 4 ms at low, 6 ms at medium and 15 ms at high repeatability. A soft
/// reset needs 1.5 ms; every other command the minimum 1 ms between
/// commands.
pub proof fn lemma_measurement_times(cs1: ClockStretching, cs2: ClockStretching, p: Repeatability, c: Command)
    requires
        !(c is SingleShot),
        c != Command::SoftReset,
    ensures
        command_delay_ns(Command::SingleShot(cs1, p)) == command_delay_ns(Command::SingleShot(cs2, p)),
        command_delay_ns(Command::SingleShot(cs1, Repeatability::Low)) == 4 * 1_000_000u32,
        command_delay_ns(Command::SingleShot(cs1, Repeatability::Medium)) == 6 * 1_000_000u32,
        command_delay_ns(Command::SingleShot(cs1, Repeatability::High)) == 15 * 1_000_000u32,
        command_delay_ns(Command::SoftReset) == 1_500_000u32,
        command_delay_ns(c) == MIN_WAIT_BETWEEN_COMMAND_MS * 1_000_000,
{
}

/// A single shot with a higher repeatability never waits less, and no
/// other command waits longer than the quickest single shot.
pub proof fn lemma_delay_grows_with_repeatability(cs: ClockStretching, c: Command)
    requires
        !(c is SingleShot),
    ensures
        command_delay_ns(Command::SingleShot(cs, Repeatability::Low)) < command_delay_ns(
            Command::SingleShot(cs, Repeatability::Medium),
        ),
        command_delay_ns(Command::SingleShot(cs, Repeatability::Medium)) < command_delay_ns(
            Command::SingleShot(cs, Repeatability::High),
        ),
        command_delay_ns(c) <= command_delay_ns(Command::SingleShot(cs, Repeatability::Low)),
{
}

/// Distinct commands have distinct codes, so the sensor can never take one
/// command for another.
pub proof fn lemma_command_codes_distinct(a: Command, b: Command)
    requires
        a != b,
    ensures
        command_code(a) != command_code(b),
{
}

} // verus!
