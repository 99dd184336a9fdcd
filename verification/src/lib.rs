//! Verified core of a line-oriented sum/mean calculator.
//!
//! The program reads a text file, parses each line as a 64-bit IEEE 754
//! number, and prints either the sum or the arithmetic mean of the values it
//! found.  Verus does not reason about floating-point arithmetic, so this
//! library verifies everything around it: how the command line is
//! interpreted, which lines of the file count as numeric candidates, how the
//! running state evolves, and which reduction is applied at the end.  A
//! floating-point value travels through the library only as its bit pattern
//! (a `u64`); the caller parses, adds and divides.

pub mod aggregate;
pub mod args;
pub mod text;
