//! A compile-time-checked configuration layer for the digital I/O pins of a
//! memory-mapped microcontroller port.
//!
//! Each pin handle carries its electrical configuration in its type; the
//! transition methods consume the handle together with the register handles
//! the new configuration depends on, perform a verified read-modify-write on
//! the register model, and return a re-typed handle. The register handles own
//! the modelled register values, so exclusive access to a register is
//! exclusive ownership of its value; mirroring the model onto the real
//! memory-mapped block is left to unverified glue outside this crate.

pub mod fields;
pub mod markers;
pub mod pin;
pub mod port;
pub mod registers;
