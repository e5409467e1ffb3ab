//! The error taxonomy of the simulator: assembly-stage failures, fatal
//! execution failures, and range errors raised while constructing operands.

use vstd::prelude::*;
use vstd::string::*;
use crate::strutil::{append_dec_i32, append_hex4, push_char};

verus! {

/// Everything that can go wrong while assembling a program or stepping the
/// machine.  A fatal step failure leaves the program counter at its pre-fault
/// value; the host is expected to stop and surface the message.
#[derive(Debug, Clone, PartialEq)]
pub enum Error {
    /// The assembly source could not be parsed.
    ParseAssembly(String),
    /// The word fetched at `address` matched no instruction pattern.
    InstructionDecode { address: u16, reason: String },
    /// The instruction decodes but cannot be executed (only RTI today).
    UnimplementedInstruction(String),
    /// Reserved for bounded-memory variants; unreachable while every address
    /// is backed.
    InvalidMemoryAccess(u16),
    /// A label was referenced but never defined.
    UndefinedLabel(String),
    /// A label was defined twice.
    DuplicateLabel(String),
    /// An operand was outside the range its field can hold.
    ValueOutOfRange { kind: String, value: i32, min: i32, max: i32 },
    /// An operand that should name a register does not.
    InvalidRegister(String),
    /// A TRAP vector larger than 0xFF.
    TrapVectorOutOfRange(u16),
    /// A PC-relative target that must be word-aligned is not.
    AlignmentError(String),
}

impl Error {
    /// A human-readable rendering of the error.
    pub fn message(&self) -> String {
        let mut s = String::new();
        match self {
            Error::ParseAssembly(m) => {
                s.append("could not parse assembly: ");
                s.append(m.as_str());
            },
            Error::InstructionDecode { address, reason } => {
                s.append("instruction decode error at 0x");
                append_hex4(&mut s, *address);
                s.append(": ");
                s.append(reason.as_str());
            },
            Error::UnimplementedInstruction(m) => {
                s.append("unimplemented instruction: ");
                s.append(m.as_str());
            },
            Error::InvalidMemoryAccess(addr) => {
                s.append("invalid memory access at 0x");
                append_hex4(&mut s, *addr);
            },
            Error::UndefinedLabel(m) => {
                s.append("Undefined label: ");
                s.append(m.as_str());
            },
            Error::DuplicateLabel(m) => {
                s.append("Duplicate label: ");
                s.append(m.as_str());
            },
            Error::ValueOutOfRange { kind, value, min, max } => {
                s.append(kind.as_str());
                s.append(" out of range: ");
                append_dec_i32(&mut s, *value);
                s.append(" (valid: ");
                append_dec_i32(&mut s, *min);
                s.append(" to ");
                append_dec_i32(&mut s, *max);
                push_char(&mut s, ')');
            },
            Error::InvalidRegister(m) => {
                s.append("invalid register: ");
                s.append(m.as_str());
            },
            Error::TrapVectorOutOfRange(v) => {
                s.append("TRAP vector out of range: 0x");
                append_hex4(&mut s, *v);
                s.append(" (valid: 0x00 to 0xFF)");
            },
            Error::AlignmentError(m) => {
                s.append("alignment error: ");
                s.append(m.as_str());
            },
        }
        s
    }
}

} // verus!
