//! A parsed program: the instruction list produced from assembly text, and
//! its encoding back to machine words.

use vstd::prelude::*;
use crate::assembler::parse_to_program;
use crate::error::Error;
use crate::isa::Instruction;

verus! {

/// A program as a list of decoded instructions.  This older interface does
/// not carry an origin; data directives become whatever instruction their
/// word decodes to.
#[derive(Debug)]
pub struct Program {
    pub instructions: Vec<Instruction>,
}

impl Program {
    /// Assembles source text and decodes the emitted words.
    pub fn from_assembly(program: &str) -> (r: Result<Program, Error>) {
        match parse_to_program(program) {
            Ok(instructions) => Ok(Program { instructions }),
            Err(e) => Err(Error::ParseAssembly(e.message())),
        }
    }

    /// Encodes every instruction as a 16-bit word, in order.
    pub fn to_words(&self) -> (r: Vec<u16>)
        ensures
            r@.len() == self.instructions@.len(),
            forall|i: int|
                0 <= i < r@.len() ==> r@[i] == (#[trigger] self.instructions@[i]).encode_spec(),
    {
        let mut words: Vec<u16> = Vec::new();
        let n = self.instructions.len();
        let mut i: usize = 0;
        while i < n
            invariant
                i <= n,
                n == self.instructions@.len(),
                words@.len() == i,
                forall|k: int|
                    0 <= k < i ==> words@[k] == (#[trigger] self.instructions@[k]).encode_spec(),
            decreases n - i,
        {
            words.push(self.instructions[i].encode());
            i = i + 1;
        }
        words
    }
}

} // verus!
