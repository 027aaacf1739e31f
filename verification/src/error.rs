//! The errors that a driver operation can end with.
use vstd::prelude::*;

verus! {

/// Represents all potential errors that can be produced by the Sht3x
/// driver. `E` is the error type of the I²C bus.
#[derive(Debug)]
pub enum Error<E> {
    /// Error occurring on the I²C bus.
    I2c(E),
    /// Failed CRC checksum validation.
    Crc,
}

} // verus!
