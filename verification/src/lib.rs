//! BM1397 protocol driver.
//!
//! A host-side codec for the serial protocol spoken by a chain of BM1397
//! chips: command frames are built as fixed-size byte arrays, response frames
//! are classified and decoded, and every register of the chip is a typed
//! wrapper over its raw value.
use vstd::prelude::*;

pub mod bits;
pub mod command;
pub mod core_register;
pub mod crc;
pub mod endian;
pub mod frequency;
pub mod register;
pub mod registers;
pub mod response;
pub mod specifier;

verus! {

/// Everything that can be wrong with the content of a frame or an identifier.
#[derive(Debug, PartialEq, Eq, Structural)]
pub enum Error {
    /// The frame does not start with the chip-to-host preamble.
    InvalidPreamble,
    /// The CRC5 over the frame body is not zero.
    InvalidCrc,
    /// The address names no chip register.
    UnknownRegister(u8),
    /// The identifier names no core register.
    UnknownCoreRegister(u8),
}

} // verus!
