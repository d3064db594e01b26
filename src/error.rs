use crate::address::HardwareAddress;
use rppal_mcp23s17::{Mcp23s17Error, SpiBus};
use vstd::prelude::*;

verus! {

/// The errors that operating the board can raise.
#[derive(Debug)]
pub enum PiFaceDigitalError {
    /// The MCP23S17 driver failed to talk to the chip.
    Mcp23s17Error {
        /// The driver's own error.
        source: Mcp23s17Error,
    },
    /// A hardware address beyond the two-bit range was asked for.
    HardwareAddressBoundsError(u8),
    /// Writing a register and reading it back gave another value: nothing answers
    /// at this address on this bus.
    NoHardwareDetected {
        /// The SPI bus that was probed.
        spi_bus: SpiBus,
        /// The hardware address that was probed.
        hardware_address: HardwareAddress,
    },
    /// The pin number is beyond 7, or a live handle already holds the pin.
    PinNotAvailable(u8),
}

/// `r` is an error of the chip driver.
pub open spec fn is_chip_error<T>(r: Result<T, PiFaceDigitalError>) -> bool {
    r matches Err(e) && e is Mcp23s17Error
}

impl PiFaceDigitalError {
    /// Wraps an error of the chip driver.
    pub fn from_chip(source: Mcp23s17Error) -> (r: Self)
        ensures
            r == (PiFaceDigitalError::Mcp23s17Error { source }),
    {
        PiFaceDigitalError::Mcp23s17Error { source }
    }
}

} // verus!
