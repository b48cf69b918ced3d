//! The interpreter's error taxonomy.

use vstd::prelude::*;
use vstd::string::StringExecFns;
use crate::system::text::{hex_text, push_hex};

verus! {

/// Everything that can go wrong while loading a program or running the machine.
#[derive(Clone, Copy, Debug, PartialEq, Eq, Structural)]
pub enum SystemError {
    /// The program does not fit into the area that starts at 0x200.
    ProgramTooLarge,
    /// A read or write at `addr` (or, for a pair, at `addr + 1`) falls outside memory.
    InvalidMemoryAccess { addr: u16 },
    /// A register index above 0xF.
    InvalidRegister { reg: u8 },
    /// A call with all sixteen frames occupied.
    StackOverflow,
    /// A return with no frame on the stack.
    StackUnderflow,
    /// A key index above 0xF.
    InvalidKey { key: u8 },
    /// The fetched instruction word is 0x0000: execution ran off the program.
    ZeroInstruction,
    /// No instruction family matches the fetched word.
    UnknownOpcode { code: u16 },
}

impl SystemError {
    /// What the error says, with its number in hexadecimal.
    pub open spec fn message_text(self) -> Seq<char> {
        match self {
            SystemError::ProgramTooLarge => "Provided program does not fit into memory"@,
            SystemError::InvalidMemoryAccess { addr } => {
                "Tried to access invalid location in memory: "@ + hex_text(addr as nat)
            },
            SystemError::InvalidRegister { reg } => {
                "Invalid register access: "@ + hex_text(reg as nat)
            },
            SystemError::StackOverflow => "Stack overflow"@,
            SystemError::StackUnderflow => "Stack underflow"@,
            SystemError::InvalidKey { key } => "Invalid key: "@ + hex_text(key as nat),
            SystemError::ZeroInstruction => "Reached zero instruction"@,
            SystemError::UnknownOpcode { code } => "Unknown opcode: "@ + hex_text(code as nat),
        }
    }

    /// The error as a line of text for the user.
    pub fn message(&self) -> (s: String)
        ensures
            s@ == self.message_text(),
    {
        match *self {
            SystemError::ProgramTooLarge => String::from_str(
                "Provided program does not fit into memory",
            ),
            SystemError::InvalidMemoryAccess { addr } => {
                let mut s = String::from_str("Tried to access invalid location in memory: ");
                push_hex(&mut s, addr);
                s
            },
            SystemError::InvalidRegister { reg } => {
                let mut s = String::from_str("Invalid register access: ");
                push_hex(&mut s, reg as u16);
                s
            },
            SystemError::StackOverflow => String::from_str("Stack overflow"),
            SystemError::StackUnderflow => String::from_str("Stack underflow"),
            SystemError::InvalidKey { key } => {
                let mut s = String::from_str("Invalid key: ");
                push_hex(&mut s, key as u16);
                s
            },
            SystemError::ZeroInstruction => String::from_str("Reached zero instruction"),
            SystemError::UnknownOpcode { code } => {
                let mut s = String::from_str("Unknown opcode: ");
                push_hex(&mut s, code);
                s
            },
        }
    }
}

} // verus!
