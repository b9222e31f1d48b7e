//! The failures that the core reports to its caller.

use vstd::prelude::*;

verus! {

/// Why an instruction, a memory access or a bus transfer was refused.
#[derive(Clone, Copy, Debug, PartialEq, Eq, Structural)]
pub enum Error {
    /// The top six bits of the first byte name no operation.
    InvalidOperation,
    /// The operation does not take its operands in the given mode.
    InvalidAddressingMode,
    /// A push found the stack pointer at or past the end of the stack.
    StackOverflow,
    /// A pop found the stack empty.
    StackUnderflow,
    /// An address that the active bank does not back, or a bank that was
    /// never configured.
    MemoryAccessError,
    /// No device is registered at the port.
    DeviceNotPresent,
}

impl Error {
    /// A short fixed description of the failure.
    pub fn message(&self) -> (text: &'static str)
        ensures
            text@ == match *self {
                Error::InvalidOperation => "invalid operation"@,
                Error::InvalidAddressingMode => "invalid amount"@,
                Error::StackOverflow => "stack overflow"@,
                Error::StackUnderflow => "cannot pop empty stack"@,
                Error::MemoryAccessError => "memory access out of range"@,
                Error::DeviceNotPresent => "device not present"@,
            },
    {
        match self {
            Error::InvalidOperation => "invalid operation",
            Error::InvalidAddressingMode => "invalid amount",
            Error::StackOverflow => "stack overflow",
            Error::StackUnderflow => "cannot pop empty stack",
            Error::MemoryAccessError => "memory access out of range",
            Error::DeviceNotPresent => "device not present",
        }
    }
}

} // verus!
