//! Low-level register interface types.

pub mod field_sets;
pub mod spi;

use vstd::prelude::*;

verus! {

/// Number of bytes the auxiliary interface bursts per FIFO frame.
#[derive(Debug, Clone, Copy, PartialEq, Eq, Structural)]
pub enum AuxBurstLength {
    Bl1,
    Bl2,
    Bl6,
    Bl8,
}

impl AuxBurstLength {
    /// The number of bytes in one burst.
    pub open spec fn byte_count(self) -> u8 {
        match self {
            AuxBurstLength::Bl1 => 1,
            AuxBurstLength::Bl2 => 2,
            AuxBurstLength::Bl6 => 6,
            AuxBurstLength::Bl8 => 8,
        }
    }
}

impl From<AuxBurstLength> for u8 {
    fn from(value: AuxBurstLength) -> (n: u8) {
        match value {
            AuxBurstLength::Bl1 => 1,
            AuxBurstLength::Bl2 => 2,
            AuxBurstLength::Bl6 => 6,
            AuxBurstLength::Bl8 => 8,
        }
    }
}

impl vstd::std_specs::convert::FromSpecImpl<AuxBurstLength> for u8 {
    open spec fn obeys_from_spec() -> bool {
        true
    }

    open spec fn from_spec(value: AuxBurstLength) -> u8 {
        value.byte_count()
    }
}

/// An error of the device: one of the bus interface, or a buffer that was too
/// small for the data.
#[derive(Debug, Clone, Copy, PartialEq, Eq, PartialOrd, Ord)]
pub enum DeviceError<T> {
    Interface(T),
    BufferTooSmall,
}

impl<T> From<T> for DeviceError<T> {
    fn from(value: T) -> (e: DeviceError<T>) {
        DeviceError::Interface(value)
    }
}

impl<T> vstd::std_specs::convert::FromSpecImpl<T> for DeviceError<T> {
    open spec fn obeys_from_spec() -> bool {
        true
    }

    open spec fn from_spec(value: T) -> DeviceError<T> {
        DeviceError::Interface(value)
    }
}

} // verus!
