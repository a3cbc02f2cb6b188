//! Register model and command framing for the ADS122C04, a four-channel
//! delta-sigma analog-to-digital converter on an I2C bus.
//!
//! [`fields`] holds the settings and their codes, [`registers`] the four
//! configuration registers with `encode` and `decode`, and [`commands`] the
//! opcodes and the frames that go out on the bus. The crate does no I/O: it
//! builds the bytes to send and reads the bytes that came back.

pub mod commands;
pub mod fields;
pub mod registers;

pub use crate::fields::{
    ConversionMode, CurrentDac, CurrentMux, DataIntegrityMode, DataRate, Gain, Mux, Vref,
};
pub use crate::registers::{Register, Register0, Register1, Register2, Register3};
