//! A counter over `i32` with verified operations.
//!
//! [`Counter`] holds one signed 32-bit value. It starts at zero, can be read,
//! moved by one or by any signed amount, reset to zero, and asked for its
//! parity. Arithmetic that leaves the range of `i32` wraps around: the stored
//! value is always the true sum reduced modulo 2^32 into that range.
//!
//! The `model` module states what each operation does to the value as plain
//! integer arithmetic, and the `laws` module proves what follows for whole
//! sequences of operations.

pub mod counter;
pub mod laws;
pub mod model;

pub use crate::counter::Counter;
pub use crate::model::Operation;
