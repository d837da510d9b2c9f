//! A fixed-topology logistic network fitted to the XOR truth table by
//! numerical (finite-difference) gradient descent.
//!
//! Network parameters are IEEE 754 binary32 values, carried everywhere as
//! their `u32` bit patterns. The four arithmetic operations on such patterns
//! are performed by a software implementation of binary32 arithmetic behind
//! trusted wrappers (see `arith`); every contract in this crate is stated
//! over those operations, exactly, at the bit level.

pub mod arith;
pub mod eval;
pub mod init;
pub mod model;
pub mod training;
