//! The sensor's status register.
use vstd::prelude::*;

verus! {

/// Whether bit `i` (counted from the least significant bit) of `bits` is set.
pub open spec fn bit_set(bits: u16, i: u16) -> bool {
    (bits >> i) & 1u16 == 1u16
}

/// The positions of the flags that the status register defines.
pub open spec fn is_defined_flag(i: u16) -> bool {
    i == 0 || i == 1 || i == 4 || i == 10 || i == 11 || i == 13 || i == 15
}

/// Flag: an incorrect checksum in the last write operation.
pub const WRITE_DATA_CHECKSUM: u16 = 0x0001;

/// Flag: the last command was not executed successfully.
pub const COMMAND: u16 = 0x0002;

/// Flag: a system reset was detected.
pub const RESET: u16 = 0x0010;

/// Flag: a temperature tracking alert has occurred.
pub const T_TRACKING_ALERT: u16 = 0x0400;

/// Flag: a relative humidity tracking alert has occurred.
pub const RH_TRACKING_ALERT: u16 = 0x0800;

/// Flag: the heater is currently active.
pub const HEATER: u16 = 0x2000;

/// Flag: an alert is pending.
pub const ALERT_PENDING: u16 = 0x8000;

/// The union of all the flags that the status register defines.
pub const ALL_FLAGS: u16 = 0xac13;

/// The status register provides operational status details of the
/// sensor. It indicates the heater status, alert mode, and execution
/// status of the last command and write sequence.
///
/// Every 16-bit value is a status: bits that no flag names are kept.
#[derive(Debug, Clone, Copy, PartialEq, Eq, Structural)]
pub struct Status {
    bits: u16,
}

impl View for Status {
    type V = u16;

    closed spec fn view(&self) -> u16 {
        self.bits
    }
}

impl Status {
    /// The status with exactly the given bits, unknown bits included.
    pub fn from_bits_retain(bits: u16) -> (status: Status)
        ensures
            status@ == bits,
    {
        Status { bits }
    }

    /// The raw contents of the register.
    pub fn bits(&self) -> (bits: u16)
        ensures
            bits == self@,
    {
        self.bits
    }

    /// The status with every defined flag set and no other bit.
    pub fn all() -> (status: Status)
        ensures
            status@ == ALL_FLAGS,
            forall|i: u16| i < 16 ==> (bit_set(status@, i) <==> is_defined_flag(i)),
    {
        proof {
            assert(forall|i: u16| i < 16 ==> (bit_set(0xac13u16, i) <==> (i == 0 || i == 1 || i == 4
                || i == 10 || i == 11 || i == 13 || i == 15))) by (bit_vector);
        }
        Status { bits: ALL_FLAGS }
    }

    /// Whether no bit is set.
    pub fn is_empty(&self) -> (empty: bool)
        ensures
            empty == (self@ == 0),
    {
        self.bits == 0
    }

    /// Whether every defined flag is set.
    pub fn is_all(&self) -> (all: bool)
        ensures
            all == (self@ & ALL_FLAGS == ALL_FLAGS),
            all <==> forall|i: u16| i < 16 && is_defined_flag(i) ==> #[trigger] bit_set(self@, i),
    {
        let b = self.bits;
        proof {
            assert((b & 0xac13u16 == 0xac13u16) <==> (bit_set(b, 0) && bit_set(b, 1) && bit_set(b, 4)
                && bit_set(b, 10) && bit_set(b, 11) && bit_set(b, 13) && bit_set(b, 15)))
                by (bit_vector);
            assert(is_defined_flag(0) && is_defined_flag(1) && is_defined_flag(4) && is_defined_flag(
                10,
            ) && is_defined_flag(11) && is_defined_flag(13) && is_defined_flag(15));
            if forall|i: u16| i < 16 && is_defined_flag(i) ==> #[trigger] bit_set(self@, i) {
                assert(bit_set(self@, 0) && bit_set(self@, 1) && bit_set(self@, 4) && bit_set(self@, 10)
                    && bit_set(self@, 11) && bit_set(self@, 13) && bit_set(self@, 15));
            }
        }
        b & ALL_FLAGS == ALL_FLAGS
    }

    /// Whether `self` and `other` have a set bit in common.
    pub fn intersects(&self, other: Status) -> (common: bool)
        ensures
            common == (self@ & other@ != 0),
    {
        self.bits & other.bits != 0
    }

    /// Whether every bit of `other` is set in `self`.
    pub fn contains(&self, other: Status) -> (contained: bool)
        ensures
            contained == (self@ & other@ == other@),
    {
        self.bits & other.bits == other.bits
    }

    /// Checks if the heater is enabled.
    pub fn heater_enabled(&self) -> (on: bool)
        ensures
            on == bit_set(self@, 13),
    {
        let b = self.bits;
        assert((b & 0x2000u16 != 0) == bit_set(b, 13)) by (bit_vector);
        self.bits & HEATER != 0
    }

    /// Determines if there is a write data checksum error.
    pub fn write_data_checksum_error(&self) -> (failed: bool)
        ensures
            failed == bit_set(self@, 0),
    {
        let b = self.bits;
        assert((b & 0x0001u16 != 0) == bit_set(b, 0)) by (bit_vector);
        self.bits & WRITE_DATA_CHECKSUM != 0
    }

    /// Indicates if the last command execution was unsuccessful.
    pub fn command_execution_failed(&self) -> (failed: bool)
        ensures
            failed == bit_set(self@, 1),
    {
        let b = self.bits;
        assert((b & 0x0002u16 != 0) == bit_set(b, 1)) by (bit_vector);
        self.bits & COMMAND != 0
    }

    /// Checks if a system reset was detected.
    pub fn system_reset_detected(&self) -> (reset: bool)
        ensures
            reset == bit_set(self@, 4),
    {
        let b = self.bits;
        assert((b & 0x0010u16 != 0) == bit_set(b, 4)) by (bit_vector);
        self.bits & RESET != 0
    }

    /// Verifies if a temperature tracking alert has occurred.
    pub fn temperature_tracking_alert_occurred(&self) -> (alert: bool)
        ensures
            alert == bit_set(self@, 10),
    {
        let b = self.bits;
        assert((b & 0x0400u16 != 0) == bit_set(b, 10)) by (bit_vector);
        self.bits & T_TRACKING_ALERT != 0
    }

    /// Verifies if a relative humidity tracking alert has occurred.
    pub fn relative_humidity_tracking_alert_occurred(&self) -> (alert: bool)
        ensures
            alert == bit_set(self@, 11),
    {
        let b = self.bits;
        assert((b & 0x0800u16 != 0) == bit_set(b, 11)) by (bit_vector);
        self.bits & RH_TRACKING_ALERT != 0
    }

    /// Checks if any alert is pending.
    pub fn alert_pending(&self) -> (pending: bool)
        ensures
            pending == bit_set(self@, 15),
    {
        let b = self.bits;
        assert((b & 0x8000u16 != 0) == bit_set(b, 15)) by (bit_vector);
        self.bits & ALERT_PENDING != 0
    }
}

} // verus!
