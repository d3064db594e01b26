//! Driver for the PiFace Digital I/O expander board for the Raspberry Pi.
//!
//! The board carries an MCP23S17 16-bit I/O expander on the SPI bus: port A drives
//! eight outputs, port B reads eight inputs, and one GPIO line of the Pi carries the
//! chip's interrupt output. This crate keeps the register configuration, the
//! ownership of the pins and the interpretation of the chip's interrupt registers.

pub mod address;
pub mod chip;
pub mod device;
pub mod error;
pub mod interrupts;
pub mod laws;

pub use address::HardwareAddress;
pub use chip::{BusOp, RegisterAddress};
pub use device::{InputPin, OutputPin, PiFaceDigital};
pub use error::PiFaceDigitalError;
pub use interrupts::{InterruptMode, Level, PinPoll};
pub use rppal_mcp23s17::{ChipSelect, Mcp23s17, SpiBus, SpiMode};
