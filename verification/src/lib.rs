//! Byte sequences for the SPI commands of the nRF24L01+ transceiver, and
//! bitfields for its registers.
//!
//! - [`registers`] holds one type for each register, with its fields at the
//!   bit positions of the datasheet.
//! - [`fields`] holds the enums for the register fields that take one of a
//!   few named settings.
//! - [`commands`] puts a command word and its data together into the bytes
//!   that go over the bus.
//! - [`bits`] reads and writes a field inside a register byte.
//!
//! Nothing here talks to the bus: every function takes values and returns
//! values.
pub mod bits;
pub mod commands;
pub mod fields;
pub mod registers;
