//! A simulator core for the CR8, a small 8-bit processor.
//!
//! The crate models the register file, the bank-switched memory and the
//! device bus, decodes the four-byte instruction window and executes one
//! instruction at a time. Every executable function carries a contract
//! that is checked by Verus.
//!
//! - `reg`, `op`, `error`: the registers and flags, the operations with
//!   their modes and the decoder, the failures.
//! - `mem`, `device`: the memory with its banks, the device bus and the
//!   interface of a device.
//! - `machine`: the machine as a mathematical value, over which the
//!   contracts are stated.
//! - `cr8`, `inst`: the core with one function for each form of each
//!   operation, and the executor.
//! - `laws`: what holds of every state and of runs of several operations.

pub mod error;
pub mod reg;
pub mod op;
pub mod mem;
pub mod device;
pub mod machine;
pub mod cr8;
pub mod inst;
pub mod laws;
