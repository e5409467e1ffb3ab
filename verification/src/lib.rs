//! A verified simulator for a 16-bit teaching instruction set in the LC-3b
//! family: the binary instruction format, a fetch-decode-execute engine with
//! registers, condition flags and a flat word-addressed memory, TRAP-based
//! console services, a two-pass assembler, and a small C-subset compiler that
//! emits assembly text for the same machine.

use vstd::prelude::*;

pub mod strutil;
pub mod error;
pub mod isa;
pub mod memory;
pub mod io;
pub mod observer;
pub mod computer;
pub mod program;
pub mod assembler;
pub mod ast;
pub mod cparser;
pub mod headers;
pub mod codegen;

pub use error::Error;
pub use isa::{
    AddInstruction, AndInstruction, Bit, Condition, DecodeError, Immediate4, Immediate5,
    Instruction, PCOffset11, PCOffset6, PCOffset9, Register, TrapVect8, XorInstruction,
};
pub use memory::{dump_words_to_binary, Memory};
pub use io::{BufferedIO, IO};
pub use observer::{Observer, UIObserver};
pub use computer::Computer;
pub use program::Program;
pub use assembler::{assemble, parse_to_program, AssembledProgram};
pub use headers::{available_headers, get_header, Header};
pub use codegen::{compile, CompileError, CompileOptions};

verus! {

/// Default address where user programs are loaded and where execution begins.
pub const USER_PROGRAM_START: u16 = 0x3000;

} // verus!
