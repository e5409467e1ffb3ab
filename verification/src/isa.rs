//! The instruction format: a total, reversible mapping between 16-bit words
//! and a closed set of typed instruction variants.  The four most significant
//! bits select the opcode family; the remaining subfields are fixed per
//! family.  Operand magnitudes are checked at construction, never at encode
//! time, so encoding is total.
//!
//! Two mnemonics alias an existing bit pattern: NOT is XOR-immediate with an
//! all-ones immediate, and RET is JMP through R7.  Decoding picks the
//! canonical representation (XOR with immediate, and RET), so the round-trip
//! law `decode(encode(x)) == x` holds for every constructible instruction
//! except `Jmp(Register7)`, whose pattern decodes as `Ret`.

use vstd::prelude::*;
use vstd::string::*;
use crate::error::Error;

verus! {

/// One of the eight general-purpose machine registers.  R7 doubles as the
/// link register for JSR/JSRR.
#[derive(Debug, Clone, Copy, PartialEq, Eq, Structural)]
pub enum Register {
    Register0,
    Register1,
    Register2,
    Register3,
    Register4,
    Register5,
    Register6,
    Register7,
}

/// The register selected by a 3-bit field value.
pub open spec fn reg_from_spec(i: u8) -> Register {
    if i == 0 {
        Register::Register0
    } else if i == 1 {
        Register::Register1
    } else if i == 2 {
        Register::Register2
    } else if i == 3 {
        Register::Register3
    } else if i == 4 {
        Register::Register4
    } else if i == 5 {
        Register::Register5
    } else if i == 6 {
        Register::Register6
    } else {
        Register::Register7
    }
}

impl Register {
    /// The 3-bit field value naming this register.
    pub open spec fn index_spec(self) -> u8 {
        match self {
            Register::Register0 => 0,
            Register::Register1 => 1,
            Register::Register2 => 2,
            Register::Register3 => 3,
            Register::Register4 => 4,
            Register::Register5 => 5,
            Register::Register6 => 6,
            Register::Register7 => 7,
        }
    }

    pub fn to_index(&self) -> (r: usize)
        ensures
            r == self.index_spec(),
            r < 8,
    {
        match self {
            Register::Register0 => 0,
            Register::Register1 => 1,
            Register::Register2 => 2,
            Register::Register3 => 3,
            Register::Register4 => 4,
            Register::Register5 => 5,
            Register::Register6 => 6,
            Register::Register7 => 7,
        }
    }

    pub fn from_index(index: u8) -> (r: Register)
        requires
            index < 8,
        ensures
            r == reg_from_spec(index),
            r.index_spec() == index,
    {
        if index == 0 {
            Register::Register0
        } else if index == 1 {
            Register::Register1
        } else if index == 2 {
            Register::Register2
        } else if index == 3 {
            Register::Register3
        } else if index == 4 {
            Register::Register4
        } else if index == 5 {
            Register::Register5
        } else if index == 6 {
            Register::Register6
        } else {
            Register::Register7
        }
    }

}

impl std::str::FromStr for Register {
    type Err = Error;

    /// Parses a register name of the form `R0` .. `R7`, upper or lower case.
    fn from_str(s: &str) -> (r: Result<Register, Error>) {
        let n = s.unicode_len();
        if n != 2 {
            return Err(Error::InvalidRegister(s.to_owned()));
        }
        let c0 = s.get_char(0);
        let c1 = s.get_char(1);
        if c0 != 'R' && c0 != 'r' {
            return Err(Error::InvalidRegister(s.to_owned()));
        }
        let d = c1 as u32;
        if d < 48 || d > 55 {
            return Err(Error::InvalidRegister(s.to_owned()));
        }
        Ok(Register::from_index((d - 48) as u8))
    }
}

/// The identity `reg_from_spec(r.index_spec()) == r`, for every register.
pub proof fn lemma_reg_index_roundtrip(r: Register)
    ensures
        reg_from_spec(r.index_spec()) == r,
{
}

/// The three condition flags.  Exactly one of them is set after every
/// flag-setting instruction; a BR tests any subset.
#[derive(Debug, Clone, Copy, PartialEq, Eq, Structural)]
pub struct Condition {
    pub n: bool,
    pub z: bool,
    pub p: bool,
}

/// True when some flag is set in both conditions: the BR taken test.
pub open spec fn cond_intersects(a: Condition, b: Condition) -> bool {
    (a.n && b.n) || (a.z && b.z) || (a.p && b.p)
}

impl Condition {
    /// Returns true if any condition flag is set in both `self` and `other`.
    pub fn intersects(&self, other: &Condition) -> (r: bool)
        ensures
            r == cond_intersects(*self, *other),
    {
        (self.n && other.n) || (self.z && other.z) || (self.p && other.p)
    }
}

impl Default for Condition {
    /// All three flags clear, the state before any flag-setting instruction.
    fn default() -> (r: Condition)
        ensures
            r == (Condition { n: false, z: false, p: false }),
    {
        Condition { n: false, z: false, p: false }
    }
}

/// A 5-bit immediate operand, stored as its raw field value.
#[derive(Debug, Clone, Copy, PartialEq, Eq, Structural)]
pub struct Immediate5(u8);

impl Immediate5 {
    /// The raw 5-bit field value, as specifications see it.
    pub closed spec fn spec_value(self) -> u8 {
        self.0
    }

    pub closed spec fn wf(self) -> bool {
        self.0 < 32
    }

    /// Accepts a raw 5-bit field value.
    pub fn new(imm5: u8) -> (r: Result<Immediate5, Error>)
        ensures
            imm5 < 32 <==> r is Ok,
            r is Ok ==> r->Ok_0.spec_value() == imm5 && r->Ok_0.wf(),
            r is Err ==> r->Err_0 is ValueOutOfRange,
    {
        if imm5 >= 32 {
            return Err(Error::ValueOutOfRange {
                kind: "Immediate5".to_owned(),
                value: imm5 as i32,
                min: 0,
                max: 31,
            });
        }
        Ok(Immediate5(imm5))
    }

    /// Accepts a signed value from -16 to 15 and stores its low five bits.
    pub fn from_signed(value: i8) -> (r: Result<Immediate5, Error>)
        ensures
            (-16 <= value && value <= 15) <==> r is Ok,
            r is Ok ==> r->Ok_0.spec_value() == ((value as u8) & 0x1F) && r->Ok_0.wf(),
            r is Err ==> r->Err_0 is ValueOutOfRange,
    {
        if value < -16 || value > 15 {
            return Err(Error::ValueOutOfRange {
                kind: "Immediate5".to_owned(),
                value: value as i32,
                min: -16,
                max: 15,
            });
        }
        proof {
            let v = value as u8;
            assert(v & 0x1F < 32) by (bit_vector);
        }
        Ok(Immediate5((value as u8) & 0x1F))
    }

    pub fn value(&self) -> (r: u8)
        ensures
            r == self.spec_value(),
    {
        self.0
    }

    pub fn to_value(&self) -> (r: u16)
        ensures
            r == self.spec_value() as u16,
    {
        self.0 as u16
    }
}

impl std::str::FromStr for Immediate5 {
    type Err = Error;

    /// Parses an optionally `#`-prefixed signed decimal in the immediate's
    /// range.
    fn from_str(s: &str) -> (r: Result<Immediate5, Error>) {
        let bytes = s.as_bytes_vec();
        let n = bytes.len();
        let mut i: usize = 0;
        if i < n && bytes[i] == 35 {
            i = i + 1;
        }
        let negative = i < n && bytes[i] == 45;
        if negative {
            i = i + 1;
        }
        if i >= n || n - i > 3 {
            return Err(Error::ParseAssembly(s.to_owned()));
        }
        let mut acc: i16 = 0;
        while i < n
            invariant
                i <= n,
                n == bytes@.len(),
                n - i <= 3,
                0 <= acc,
                n - i == 3 ==> acc == 0,
                n - i == 2 ==> acc <= 9,
                n - i == 1 ==> acc <= 99,
                n - i == 0 ==> acc <= 999,
            decreases n - i,
        {
            let b = bytes[i];
            if b < 48 || b > 57 {
                return Err(Error::ParseAssembly(s.to_owned()));
            }
            acc = acc * 10 + ((b - 48) as i16);
            i = i + 1;
        }
        let signed: i16 = if negative {
            -acc
        } else {
            acc
        };
        if signed < -128 || signed > 127 {
            return Err(Error::ParseAssembly(s.to_owned()));
        }
        Immediate5::from_signed(signed as i8)
    }
}

/// A 4-bit shift amount.
#[derive(Debug, Clone, Copy, PartialEq, Eq, Structural)]
pub struct Immediate4(u8);

impl Immediate4 {
    /// The raw 4-bit field value, as specifications see it.
    pub closed spec fn spec_value(self) -> u8 {
        self.0
    }

    pub closed spec fn wf(self) -> bool {
        self.0 < 16
    }

    pub fn new(val: u8) -> (r: Result<Immediate4, Error>)
        ensures
            val < 16 <==> r is Ok,
            r is Ok ==> r->Ok_0.spec_value() == val && r->Ok_0.wf(),
            r is Err ==> r->Err_0 is ValueOutOfRange,
    {
        if val >= 16 {
            return Err(Error::ValueOutOfRange {
                kind: "Immediate4".to_owned(),
                value: val as i32,
                min: 0,
                max: 15,
            });
        }
        Ok(Immediate4(val))
    }

    /// The raw field value; within the shift width whenever the operand is
    /// well-formed.
    pub fn value(&self) -> (r: u8)
        ensures
            r == self.spec_value(),
            self.wf() ==> r < 16,
    {
        self.0
    }
}

/// Sign extension of a 5-bit field into a 16-bit pattern.
pub open spec fn sext5_spec(x: u16) -> u16 {
    if x & 0x10 != 0 {
        x | 0xFFE0
    } else {
        x
    }
}

/// Sign extension of a 6-bit field into a 16-bit pattern.
pub open spec fn sext6_spec(x: u16) -> u16 {
    if x & 0x20 != 0 {
        x | 0xFFC0
    } else {
        x
    }
}

/// Sign extension of a 9-bit field into a 16-bit pattern.
pub open spec fn sext9_spec(x: u16) -> u16 {
    if x & 0x100 != 0 {
        x | 0xFE00
    } else {
        x
    }
}

/// Sign extension of an 11-bit field into a 16-bit pattern.
pub open spec fn sext11_spec(x: u16) -> u16 {
    if x & 0x400 != 0 {
        x | 0xF800
    } else {
        x
    }
}

/// Sign extension of a byte into a 16-bit pattern, used by LDB.
pub open spec fn sext8_spec(x: u16) -> u16 {
    if x & 0x80 != 0 {
        x | 0xFF00
    } else {
        x
    }
}

/// A 9-bit PC-relative offset, stored as its raw field value; sign extension
/// is applied on demand at execution time.
#[derive(Debug, Clone, Copy, PartialEq, Eq, Structural)]
pub struct PCOffset9(u16);

impl PCOffset9 {
    /// The raw 9-bit field value, as specifications see it.
    pub closed spec fn spec_value(self) -> u16 {
        self.0
    }

    pub closed spec fn wf(self) -> bool {
        self.0 < 512
    }

    /// Stores the low nine bits of a signed offset.
    pub fn new(value: i16) -> (r: PCOffset9)
        ensures
            r.spec_value() == ((value as u16) & 0x1FF),
            r.wf(),
    {
        proof {
            let v = value as u16;
            assert(v & 0x1FF < 512) by (bit_vector);
        }
        PCOffset9((value as u16) & 0x1FF)
    }

    /// Sign-extends the 9-bit field to 16 bits.
    pub fn sign_extend(&self) -> (r: i16)
        ensures
            (r as u16) == sext9_spec(self.spec_value()),
    {
        if self.0 & 0x100 != 0 {
            proof {
                let x = self.0;
                assert((((x | 0xFE00) as i16) as u16) == (x | 0xFE00)) by (bit_vector);
            }
            #[verifier::truncate] ((self.0 | 0xFE00) as i16)
        } else {
            proof {
                let x = self.0;
                assert(((x as i16) as u16) == x) by (bit_vector);
            }
            #[verifier::truncate] (self.0 as i16)
        }
    }
}

/// An 11-bit PC-relative offset for JSR.
#[derive(Debug, Clone, Copy, PartialEq, Eq, Structural)]
pub struct PCOffset11(u16);

impl PCOffset11 {
    /// The raw 11-bit field value, as specifications see it.
    pub closed spec fn spec_value(self) -> u16 {
        self.0
    }

    pub closed spec fn wf(self) -> bool {
        self.0 < 2048
    }

    /// Stores the low eleven bits of a signed offset.
    pub fn new(value: i16) -> (r: PCOffset11)
        ensures
            r.spec_value() == ((value as u16) & 0x7FF),
            r.wf(),
    {
        proof {
            let v = value as u16;
            assert(v & 0x7FF < 2048) by (bit_vector);
        }
        PCOffset11((value as u16) & 0x7FF)
    }

    /// Sign-extends the 11-bit field to 16 bits.
    pub fn sign_extend(&self) -> (r: i16)
        ensures
            (r as u16) == sext11_spec(self.spec_value()),
    {
        if self.0 & 0x400 != 0 {
            proof {
                let x = self.0;
                assert((((x | 0xF800) as i16) as u16) == (x | 0xF800)) by (bit_vector);
            }
            #[verifier::truncate] ((self.0 | 0xF800) as i16)
        } else {
            proof {
                let x = self.0;
                assert(((x as i16) as u16) == x) by (bit_vector);
            }
            #[verifier::truncate] (self.0 as i16)
        }
    }
}

/// A 6-bit base-relative offset for the load and store families.
#[derive(Debug, Clone, Copy, PartialEq, Eq, Structural)]
pub struct PCOffset6(u8);

impl PCOffset6 {
    /// The raw 6-bit field value, as specifications see it.
    pub closed spec fn spec_value(self) -> u8 {
        self.0
    }

    pub closed spec fn wf(self) -> bool {
        self.0 < 64
    }

    /// Stores the low six bits of a signed offset.
    pub fn new(value: i16) -> (r: PCOffset6)
        ensures
            r.spec_value() == (((value as u16) & 0x3F) as u8),
            r.wf(),
    {
        proof {
            let v = value as u16;
            assert(v & 0x3F < 64) by (bit_vector);
        }
        PCOffset6(((value as u16) & 0x3F) as u8)
    }

    /// Sign-extends the 6-bit field to 16 bits.
    pub fn sign_extend(&self) -> (r: i16)
        ensures
            (r as u16) == sext6_spec(self.spec_value() as u16),
    {
        let x = self.0 as u16;
        if x & 0x20 != 0 {
            proof {
                assert((((x | 0xFFC0) as i16) as u16) == (x | 0xFFC0)) by (bit_vector);
            }
            #[verifier::truncate] ((x | 0xFFC0) as i16)
        } else {
            proof {
                assert(((x as i16) as u16) == x) by (bit_vector);
            }
            #[verifier::truncate] (x as i16)
        }
    }
}

/// A single instruction bit: the direction and arithmetic flags of SHF.
#[derive(Debug, Clone, Copy, PartialEq, Eq, Structural)]
pub struct Bit(bool);

impl Bit {
    /// The bit, as specifications see it.
    pub closed spec fn spec_value(self) -> bool {
        self.0
    }

    pub fn new(b: bool) -> (r: Bit)
        ensures
            r.spec_value() == b,
    {
        Bit(b)
    }

    pub fn value(&self) -> (r: bool)
        ensures
            r == self.spec_value(),
    {
        self.0
    }
}

/// An 8-bit TRAP vector.
#[derive(Debug, Clone, Copy, PartialEq, Eq, Structural)]
pub struct TrapVect8(u8);

impl TrapVect8 {
    /// The 8-bit vector, as specifications see it.
    pub closed spec fn spec_value(self) -> u8 {
        self.0
    }

    pub fn new(value: u8) -> (r: TrapVect8)
        ensures
            r.spec_value() == value,
    {
        TrapVect8(value)
    }

    pub fn value(&self) -> (r: u8)
        ensures
            r == self.spec_value(),
    {
        self.0
    }
}

/// The two addressing modes of ADD.
#[derive(Debug, Clone, Copy, PartialEq, Eq, Structural)]
pub enum AddInstruction {
    AddReg(Register, Register, Register),
    AddImm(Register, Register, Immediate5),
}

/// The two addressing modes of AND.
#[derive(Debug, Clone, Copy, PartialEq, Eq, Structural)]
pub enum AndInstruction {
    AndReg(Register, Register, Register),
    AndImm(Register, Register, Immediate5),
}

/// The two addressing modes of XOR.  NOT is XOR with an all-ones immediate.
#[derive(Debug, Clone, Copy, PartialEq, Eq, Structural)]
pub enum XorInstruction {
    XorReg(Register, Register, Register),
    XorImm(Register, Register, Immediate5),
}

/// A value carrying the offending word and a reason, produced when a word
/// matches no instruction pattern.  Every 4-bit opcode selector is mapped
/// today, so decoding in fact always succeeds.
#[derive(Debug, Clone, PartialEq)]
pub struct DecodeError {
    pub word: u16,
    pub reason: String,
}

/// The closed set of instruction variants, one per opcode family.
#[derive(Debug, Clone, Copy, PartialEq, Eq, Structural)]
pub enum Instruction {
    AddInstruction(AddInstruction),
    AndInstruction(AndInstruction),
    XorInstruction(XorInstruction),
    Br(Condition, PCOffset9),
    Jmp(Register),
    Jsr(PCOffset11),
    Jsrr(Register),
    Ldb(Register, Register, PCOffset6),
    Ldi(Register, Register, PCOffset6),
    Ldr(Register, Register, PCOffset6),
    Lea(Register, PCOffset9),
    Ret,
    Rti,
    Shf(Register, Register, Bit, Bit, Immediate4),
    Stb(Register, Register, PCOffset6),
    Sti(Register, Register, PCOffset6),
    Stw(Register, Register, PCOffset6),
    Trap(TrapVect8),
}

impl Instruction {
    /// Every operand fits its field.  Constructors enforce this; decoding
    /// produces only such values.
    pub open spec fn wf(self) -> bool {
        match self {
            Instruction::AddInstruction(AddInstruction::AddImm(_, _, imm)) => imm.wf(),
            Instruction::AndInstruction(AndInstruction::AndImm(_, _, imm)) => imm.wf(),
            Instruction::XorInstruction(XorInstruction::XorImm(_, _, imm)) => imm.wf(),
            Instruction::Br(_, off) => off.wf(),
            Instruction::Jsr(off) => off.wf(),
            Instruction::Ldb(_, _, off) => off.wf(),
            Instruction::Ldi(_, _, off) => off.wf(),
            Instruction::Ldr(_, _, off) => off.wf(),
            Instruction::Lea(_, off) => off.wf(),
            Instruction::Shf(_, _, _, _, amount) => amount.wf(),
            Instruction::Stb(_, _, off) => off.wf(),
            Instruction::Sti(_, _, off) => off.wf(),
            Instruction::Stw(_, _, off) => off.wf(),
            _ => true,
        }
    }

    /// The 16-bit word this instruction encodes to.
    pub closed spec fn encode_spec(self) -> u16 {
        match self {
            Instruction::AddInstruction(AddInstruction::AddReg(dr, sr1, sr2)) => ((0x1u16 << 12) | ((
            dr.index_spec() as u16) << 9) | ((sr1.index_spec() as u16) << 6) | (
            sr2.index_spec() as u16)),
            Instruction::AddInstruction(AddInstruction::AddImm(dr, sr1, imm5)) => ((0x1u16 << 12) | ((
            dr.index_spec() as u16) << 9) | ((sr1.index_spec() as u16) << 6) | 0x20u16 | ((
            imm5.0 as u16) & 0x1F)),
            Instruction::AndInstruction(AndInstruction::AndReg(dr, sr1, sr2)) => ((0x5u16 << 12) | ((
            dr.index_spec() as u16) << 9) | ((sr1.index_spec() as u16) << 6) | (
            sr2.index_spec() as u16)),
            Instruction::AndInstruction(AndInstruction::AndImm(dr, sr1, imm5)) => ((0x5u16 << 12) | ((
            dr.index_spec() as u16) << 9) | ((sr1.index_spec() as u16) << 6) | 0x20u16 | ((
            imm5.0 as u16) & 0x1F)),
            Instruction::XorInstruction(XorInstruction::XorReg(dr, sr1, sr2)) => ((0x9u16 << 12) | ((
            dr.index_spec() as u16) << 9) | ((sr1.index_spec() as u16) << 6) | (
            sr2.index_spec() as u16)),
            Instruction::XorInstruction(XorInstruction::XorImm(dr, sr1, imm5)) => ((0x9u16 << 12) | ((
            dr.index_spec() as u16) << 9) | ((sr1.index_spec() as u16) << 6) | 0x20u16 | ((
            imm5.0 as u16) & 0x1F)),
            Instruction::Br(cond, offset) => ((if cond.n {
                0x800u16
            } else {
                0u16
            }) | (if cond.z {
                0x400u16
            } else {
                0u16
            }) | (if cond.p {
                0x200u16
            } else {
                0u16
            }) | (offset.0 & 0x1FF)),
            Instruction::Jmp(base) => (0xC000u16 | ((base.index_spec() as u16) << 6)),
            Instruction::Jsr(offset) => (0x4800u16 | (offset.0 & 0x7FF)),
            Instruction::Jsrr(base) => (0x4000u16 | ((base.index_spec() as u16) << 6)),
            Instruction::Ldb(dr, base, offset) => ((0x2u16 << 12) | ((dr.index_spec() as u16) << 9) | ((
            base.index_spec() as u16) << 6) | ((offset.0 as u16) & 0x3F)),
            Instruction::Ldi(dr, base, offset) => ((0xAu16 << 12) | ((dr.index_spec() as u16) << 9) | ((
            base.index_spec() as u16) << 6) | ((offset.0 as u16) & 0x3F)),
            Instruction::Ldr(dr, base, offset) => ((0x6u16 << 12) | ((dr.index_spec() as u16) << 9) | ((
            base.index_spec() as u16) << 6) | ((offset.0 as u16) & 0x3F)),
            Instruction::Lea(dr, offset) => (0xE000u16 | ((dr.index_spec() as u16) << 9) | (offset.0
                & 0x1FF)),
            Instruction::Ret => 0xC1C0u16,
            Instruction::Rti => 0x8000u16,
            Instruction::Shf(dr, sr, d, a, amount) => (0xD000u16 | ((dr.index_spec() as u16) << 9)
                | ((sr.index_spec() as u16) << 6) | (if d.0 {
                0x20u16
            } else {
                0u16
            }) | (if a.0 {
                0x10u16
            } else {
                0u16
            }) | ((amount.0 as u16) & 0xF)),
            Instruction::Stb(sr, base, offset) => ((0x3u16 << 12) | ((sr.index_spec() as u16) << 9) | ((
            base.index_spec() as u16) << 6) | ((offset.0 as u16) & 0x3F)),
            Instruction::Sti(sr, base, offset) => ((0xBu16 << 12) | ((sr.index_spec() as u16) << 9) | ((
            base.index_spec() as u16) << 6) | ((offset.0 as u16) & 0x3F)),
            Instruction::Stw(sr, base, offset) => ((0x7u16 << 12) | ((sr.index_spec() as u16) << 9) | ((
            base.index_spec() as u16) << 6) | ((offset.0 as u16) & 0x3F)),
            Instruction::Trap(vect) => (0xF000u16 | (vect.0 as u16)),
        }
    }

    /// The instruction a word decodes to.  Total: every 4-bit opcode selector
    /// names a family.
    pub closed spec fn decode_spec(word: u16) -> Instruction {
        let opcode = (word >> 12) & 0xF;
        let dr = reg_from_spec(((word >> 9) & 0x7) as u8);
        let base = reg_from_spec(((word >> 6) & 0x7) as u8);
        let sr2 = reg_from_spec((word & 0x7) as u8);
        let off6 = PCOffset6((word & 0x3F) as u8);
        let off9 = PCOffset9(word & 0x1FF);
        if opcode == 0x1 {
            if (word >> 5) & 0x1 == 1 {
                Instruction::AddInstruction(
                    AddInstruction::AddImm(dr, base, Immediate5((word & 0x1F) as u8)),
                )
            } else {
                Instruction::AddInstruction(AddInstruction::AddReg(dr, base, sr2))
            }
        } else if opcode == 0x5 {
            if (word >> 5) & 0x1 == 1 {
                Instruction::AndInstruction(
                    AndInstruction::AndImm(dr, base, Immediate5((word & 0x1F) as u8)),
                )
            } else {
                Instruction::AndInstruction(AndInstruction::AndReg(dr, base, sr2))
            }
        } else if opcode == 0x9 {
            if (word >> 5) & 0x1 == 1 {
                Instruction::XorInstruction(
                    XorInstruction::XorImm(dr, base, Immediate5((word & 0x1F) as u8)),
                )
            } else {
                Instruction::XorInstruction(XorInstruction::XorReg(dr, base, sr2))
            }
        } else if opcode == 0x0 {
            Instruction::Br(
                Condition {
                    n: (word >> 11) & 0x1 == 1,
                    z: (word >> 10) & 0x1 == 1,
                    p: (word >> 9) & 0x1 == 1,
                },
                off9,
            )
        } else if opcode == 0xC {
            if (word >> 6) & 0x7 == 7 {
                Instruction::Ret
            } else {
                Instruction::Jmp(base)
            }
        } else if opcode == 0x4 {
            if (word >> 11) & 0x1 == 1 {
                Instruction::Jsr(PCOffset11(word & 0x7FF))
            } else {
                Instruction::Jsrr(base)
            }
        } else if opcode == 0x2 {
            Instruction::Ldb(dr, base, off6)
        } else if opcode == 0xA {
            Instruction::Ldi(dr, base, off6)
        } else if opcode == 0x6 {
            Instruction::Ldr(dr, base, off6)
        } else if opcode == 0xE {
            Instruction::Lea(dr, off9)
        } else if opcode == 0x8 {
            Instruction::Rti
        } else if opcode == 0xD {
            Instruction::Shf(
                dr,
                base,
                Bit((word >> 5) & 0x1 == 1),
                Bit((word >> 4) & 0x1 == 1),
                Immediate4((word & 0xF) as u8),
            )
        } else if opcode == 0x3 {
            Instruction::Stb(dr, base, off6)
        } else if opcode == 0xB {
            Instruction::Sti(dr, base, off6)
        } else if opcode == 0x7 {
            Instruction::Stw(dr, base, off6)
        } else {
            Instruction::Trap(TrapVect8((word & 0xFF) as u8))
        }
    }

    /// Encodes this instruction as a 16-bit word.  Never fails: operand
    /// magnitudes were checked at construction.
    pub fn encode(&self) -> (r: u16)
        ensures
            r == self.encode_spec(),
    {
        match *self {
            Instruction::AddInstruction(AddInstruction::AddReg(dr, sr1, sr2)) => {
                (0x1u16 << 12) | ((dr.to_index() as u16) << 9) | ((sr1.to_index() as u16) << 6) | (
                sr2.to_index() as u16)
            },
            Instruction::AddInstruction(AddInstruction::AddImm(dr, sr1, imm5)) => {
                (0x1u16 << 12) | ((dr.to_index() as u16) << 9) | ((sr1.to_index() as u16) << 6)
                    | 0x20u16 | ((imm5.0 as u16) & 0x1F)
            },
            Instruction::AndInstruction(AndInstruction::AndReg(dr, sr1, sr2)) => {
                (0x5u16 << 12) | ((dr.to_index() as u16) << 9) | ((sr1.to_index() as u16) << 6) | (
                sr2.to_index() as u16)
            },
            Instruction::AndInstruction(AndInstruction::AndImm(dr, sr1, imm5)) => {
                (0x5u16 << 12) | ((dr.to_index() as u16) << 9) | ((sr1.to_index() as u16) << 6)
                    | 0x20u16 | ((imm5.0 as u16) & 0x1F)
            },
            Instruction::XorInstruction(XorInstruction::XorReg(dr, sr1, sr2)) => {
                (0x9u16 << 12) | ((dr.to_index() as u16) << 9) | ((sr1.to_index() as u16) << 6) | (
                sr2.to_index() as u16)
            },
            Instruction::XorInstruction(XorInstruction::XorImm(dr, sr1, imm5)) => {
                (0x9u16 << 12) | ((dr.to_index() as u16) << 9) | ((sr1.to_index() as u16) << 6)
                    | 0x20u16 | ((imm5.0 as u16) & 0x1F)
            },
            Instruction::Br(cond, offset) => {
                (if cond.n {
                    0x800u16
                } else {
                    0u16
                }) | (if cond.z {
                    0x400u16
                } else {
                    0u16
                }) | (if cond.p {
                    0x200u16
                } else {
                    0u16
                }) | (offset.0 & 0x1FF)
            },
            Instruction::Jmp(base) => 0xC000u16 | ((base.to_index() as u16) << 6),
            Instruction::Jsr(offset) => 0x4800u16 | (offset.0 & 0x7FF),
            Instruction::Jsrr(base) => 0x4000u16 | ((base.to_index() as u16) << 6),
            Instruction::Ldb(dr, base, offset) => {
                (0x2u16 << 12) | ((dr.to_index() as u16) << 9) | ((base.to_index() as u16) << 6) | ((
                offset.0 as u16) & 0x3F)
            },
            Instruction::Ldi(dr, base, offset) => {
                (0xAu16 << 12) | ((dr.to_index() as u16) << 9) | ((base.to_index() as u16) << 6) | ((
                offset.0 as u16) & 0x3F)
            },
            Instruction::Ldr(dr, base, offset) => {
                (0x6u16 << 12) | ((dr.to_index() as u16) << 9) | ((base.to_index() as u16) << 6) | ((
                offset.0 as u16) & 0x3F)
            },
            Instruction::Lea(dr, offset) => {
                0xE000u16 | ((dr.to_index() as u16) << 9) | (offset.0 & 0x1FF)
            },
            Instruction::Ret => 0xC1C0u16,
            Instruction::Rti => 0x8000u16,
            Instruction::Shf(dr, sr, d, a, amount) => {
                0xD000u16 | ((dr.to_index() as u16) << 9) | ((sr.to_index() as u16) << 6) | (
                if d.0 {
                    0x20u16
                } else {
                    0u16
                }) | (if a.0 {
                    0x10u16
                } else {
                    0u16
                }) | ((amount.0 as u16) & 0xF)
            },
            Instruction::Stb(sr, base, offset) => {
                (0x3u16 << 12) | ((sr.to_index() as u16) << 9) | ((base.to_index() as u16) << 6) | ((
                offset.0 as u16) & 0x3F)
            },
            Instruction::Sti(sr, base, offset) => {
                (0xBu16 << 12) | ((sr.to_index() as u16) << 9) | ((base.to_index() as u16) << 6) | ((
                offset.0 as u16) & 0x3F)
            },
            Instruction::Stw(sr, base, offset) => {
                (0x7u16 << 12) | ((sr.to_index() as u16) << 9) | ((base.to_index() as u16) << 6) | ((
                offset.0 as u16) & 0x3F)
            },
            Instruction::Trap(vect) => 0xF000u16 | (vect.0 as u16),
        }
    }

    /// Decodes a 16-bit word.  Succeeds on every word, since all sixteen
    /// opcode selectors name a family; the error branch is kept for the
    /// shape of the interface.
    pub fn decode(word: u16) -> (r: Result<Instruction, DecodeError>)
        ensures
            r is Ok,
            r->Ok_0 == Instruction::decode_spec(word),
            r->Ok_0.wf(),
    {
        proof {
            lemma_decode_bounds(word);
        }
        let opcode = (word >> 12) & 0xF;
        let dr = Register::from_index(((word >> 9) & 0x7) as u8);
        let base = Register::from_index(((word >> 6) & 0x7) as u8);
        if opcode == 0x1 {
            if (word >> 5) & 0x1 == 1 {
                Ok(
                    Instruction::AddInstruction(
                        AddInstruction::AddImm(dr, base, Immediate5((word & 0x1F) as u8)),
                    ),
                )
            } else {
                let sr2 = Register::from_index((word & 0x7) as u8);
                Ok(Instruction::AddInstruction(AddInstruction::AddReg(dr, base, sr2)))
            }
        } else if opcode == 0x5 {
            if (word >> 5) & 0x1 == 1 {
                Ok(
                    Instruction::AndInstruction(
                        AndInstruction::AndImm(dr, base, Immediate5((word & 0x1F) as u8)),
                    ),
                )
            } else {
                let sr2 = Register::from_index((word & 0x7) as u8);
                Ok(Instruction::AndInstruction(AndInstruction::AndReg(dr, base, sr2)))
            }
        } else if opcode == 0x9 {
            if (word >> 5) & 0x1 == 1 {
                Ok(
                    Instruction::XorInstruction(
                        XorInstruction::XorImm(dr, base, Immediate5((word & 0x1F) as u8)),
                    ),
                )
            } else {
                let sr2 = Register::from_index((word & 0x7) as u8);
                Ok(Instruction::XorInstruction(XorInstruction::XorReg(dr, base, sr2)))
            }
        } else if opcode == 0x0 {
            Ok(
                Instruction::Br(
                    Condition {
                        n: (word >> 11) & 0x1 == 1,
                        z: (word >> 10) & 0x1 == 1,
                        p: (word >> 9) & 0x1 == 1,
                    },
                    PCOffset9(word & 0x1FF),
                ),
            )
        } else if opcode == 0xC {
            if (word >> 6) & 0x7 == 7 {
                Ok(Instruction::Ret)
            } else {
                Ok(Instruction::Jmp(base))
            }
        } else if opcode == 0x4 {
            if (word >> 11) & 0x1 == 1 {
                Ok(Instruction::Jsr(PCOffset11(word & 0x7FF)))
            } else {
                Ok(Instruction::Jsrr(base))
            }
        } else if opcode == 0x2 {
            Ok(Instruction::Ldb(dr, base, PCOffset6((word & 0x3F) as u8)))
        } else if opcode == 0xA {
            Ok(Instruction::Ldi(dr, base, PCOffset6((word & 0x3F) as u8)))
        } else if opcode == 0x6 {
            Ok(Instruction::Ldr(dr, base, PCOffset6((word & 0x3F) as u8)))
        } else if opcode == 0xE {
            Ok(Instruction::Lea(dr, PCOffset9(word & 0x1FF)))
        } else if opcode == 0x8 {
            Ok(Instruction::Rti)
        } else if opcode == 0xD {
            Ok(
                Instruction::Shf(
                    dr,
                    base,
                    Bit((word >> 5) & 0x1 == 1),
                    Bit((word >> 4) & 0x1 == 1),
                    Immediate4((word & 0xF) as u8),
                ),
            )
        } else if opcode == 0x3 {
            Ok(Instruction::Stb(dr, base, PCOffset6((word & 0x3F) as u8)))
        } else if opcode == 0xB {
            Ok(Instruction::Sti(dr, base, PCOffset6((word & 0x3F) as u8)))
        } else if opcode == 0x7 {
            Ok(Instruction::Stw(dr, base, PCOffset6((word & 0x3F) as u8)))
        } else {
            Ok(Instruction::Trap(TrapVect8((word & 0xFF) as u8)))
        }
    }
}

/// Whatever a word decodes to is well-formed: every extracted operand is
/// already masked to its field width.
pub proof fn lemma_decode_spec_wf(word: u16)
    ensures
        Instruction::decode_spec(word).wf(),
{
    lemma_decode_bounds(word);
}

/// Field extractions of a word stay inside their field widths.
proof fn lemma_decode_bounds(word: u16)
    ensures
        ((word >> 9) & 0x7) < 8,
        ((word >> 6) & 0x7) < 8,
        (word & 0x7) < 8,
        (word & 0x1F) < 32,
        (word & 0x3F) < 64,
        (word & 0x1FF) < 512,
        (word & 0x7FF) < 2048,
        (word & 0xF) < 16,
        (word & 0xFF) < 256,
{
    assert(((word >> 9) & 0x7) < 8 && ((word >> 6) & 0x7) < 8 && (word & 0x7) < 8 && (word & 0x1F)
        < 32 && (word & 0x3F) < 64 && (word & 0x1FF) < 512 && (word & 0x7FF) < 2048 && (word & 0xF)
        < 16 && (word & 0xFF) < 256) by (bit_vector);
}

impl From<&Instruction> for u16 {
    /// Encoding through the standard conversion trait.
    fn from(value: &Instruction) -> (r: u16) {
        value.encode()
    }
}

impl vstd::std_specs::convert::FromSpecImpl<&Instruction> for u16 {
    open spec fn obeys_from_spec() -> bool {
        true
    }

    open spec fn from_spec(t: &Instruction) -> u16 {
        t.encode_spec()
    }
}

impl TryFrom<u16> for Instruction {
    type Error = DecodeError;

    /// Decoding through the standard conversion trait.
    fn try_from(word: u16) -> (r: Result<Instruction, DecodeError>) {
        Instruction::decode(word)
    }
}

impl vstd::std_specs::convert::TryFromSpecImpl<u16> for Instruction {
    open spec fn obeys_try_from_spec() -> bool {
        true
    }

    open spec fn try_from_spec(v: u16) -> Result<Instruction, DecodeError> {
        Ok(Instruction::decode_spec(v))
    }
}

/// The round-trip law: every constructible instruction, encoded and decoded,
/// comes back as itself.  The one exception is `Jmp(Register7)`, whose bit
/// pattern is the definition of RET and therefore decodes as `Ret`.
#[verifier::rlimit(100)]
pub proof fn lemma_decode_encode_roundtrip(i: Instruction)
    requires
        i.wf(),
        i != Instruction::Jmp(Register::Register7),
    ensures
        Instruction::decode_spec(i.encode_spec()) == i,
{
    match i {
        Instruction::AddInstruction(AddInstruction::AddReg(dr, sr1, sr2)) => {
            lemma_arith_reg_fields(0x1, dr.index_spec(), sr1.index_spec(), sr2.index_spec());
            lemma_reg_index_roundtrip(dr);
            lemma_reg_index_roundtrip(sr1);
            lemma_reg_index_roundtrip(sr2);
        },
        Instruction::AddInstruction(AddInstruction::AddImm(dr, sr1, imm5)) => {
            lemma_arith_imm_fields(0x1, dr.index_spec(), sr1.index_spec(), imm5.0);
            lemma_reg_index_roundtrip(dr);
            lemma_reg_index_roundtrip(sr1);
        },
        Instruction::AndInstruction(AndInstruction::AndReg(dr, sr1, sr2)) => {
            lemma_arith_reg_fields(0x5, dr.index_spec(), sr1.index_spec(), sr2.index_spec());
            lemma_reg_index_roundtrip(dr);
            lemma_reg_index_roundtrip(sr1);
            lemma_reg_index_roundtrip(sr2);
        },
        Instruction::AndInstruction(AndInstruction::AndImm(dr, sr1, imm5)) => {
            lemma_arith_imm_fields(0x5, dr.index_spec(), sr1.index_spec(), imm5.0);
            lemma_reg_index_roundtrip(dr);
            lemma_reg_index_roundtrip(sr1);
        },
        Instruction::XorInstruction(XorInstruction::XorReg(dr, sr1, sr2)) => {
            lemma_arith_reg_fields(0x9, dr.index_spec(), sr1.index_spec(), sr2.index_spec());
            lemma_reg_index_roundtrip(dr);
            lemma_reg_index_roundtrip(sr1);
            lemma_reg_index_roundtrip(sr2);
        },
        Instruction::XorInstruction(XorInstruction::XorImm(dr, sr1, imm5)) => {
            lemma_arith_imm_fields(0x9, dr.index_spec(), sr1.index_spec(), imm5.0);
            lemma_reg_index_roundtrip(dr);
            lemma_reg_index_roundtrip(sr1);
        },
        Instruction::Br(cond, offset) => {
            let n = cond.n;
            let z = cond.z;
            let p = cond.p;
            let o = offset.0;
            let w = (if n {
                0x800u16
            } else {
                0u16
            }) | (if z {
                0x400u16
            } else {
                0u16
            }) | (if p {
                0x200u16
            } else {
                0u16
            }) | (o & 0x1FF);
            assert((w >> 12) & 0xF == 0 && ((w >> 11) & 0x1 == 1 <==> n) && ((w >> 10) & 0x1 == 1
                <==> z) && ((w >> 9) & 0x1 == 1 <==> p) && w & 0x1FF == o) by (bit_vector)
                requires
                    o < 512,
                    w == (if n {
                        0x800u16
                    } else {
                        0u16
                    }) | (if z {
                        0x400u16
                    } else {
                        0u16
                    }) | (if p {
                        0x200u16
                    } else {
                        0u16
                    }) | (o & 0x1FF),
            ;
        },
        Instruction::Jmp(base) => {
            let b = base.index_spec();
            assert(((0xC000u16 | ((b as u16) << 6)) >> 12) & 0xF == 0xC && ((0xC000u16 | ((
            b as u16) << 6)) >> 6) & 0x7 == b) by (bit_vector)
                requires
                    b < 8,
            ;
            lemma_reg_index_roundtrip(base);
        },
        Instruction::Jsr(offset) => {
            let o = offset.0;
            assert(((0x4800u16 | (o & 0x7FF)) >> 12) & 0xF == 0x4 && ((0x4800u16 | (o & 0x7FF))
                >> 11) & 0x1 == 1 && (0x4800u16 | (o & 0x7FF)) & 0x7FF == o) by (bit_vector)
                requires
                    o < 2048,
            ;
        },
        Instruction::Jsrr(base) => {
            let b = base.index_spec();
            assert(((0x4000u16 | ((b as u16) << 6)) >> 12) & 0xF == 0x4 && ((0x4000u16 | ((
            b as u16) << 6)) >> 11) & 0x1 == 0 && ((0x4000u16 | ((b as u16) << 6)) >> 6) & 0x7 == b)
                by (bit_vector)
                requires
                    b < 8,
            ;
            lemma_reg_index_roundtrip(base);
        },
        Instruction::Ldb(dr, base, offset) => {
            lemma_load_fields(0x2, dr.index_spec(), base.index_spec(), offset.0);
            lemma_reg_index_roundtrip(dr);
            lemma_reg_index_roundtrip(base);
        },
        Instruction::Ldi(dr, base, offset) => {
            lemma_load_fields(0xA, dr.index_spec(), base.index_spec(), offset.0);
            lemma_reg_index_roundtrip(dr);
            lemma_reg_index_roundtrip(base);
        },
        Instruction::Ldr(dr, base, offset) => {
            lemma_load_fields(0x6, dr.index_spec(), base.index_spec(), offset.0);
            lemma_reg_index_roundtrip(dr);
            lemma_reg_index_roundtrip(base);
        },
        Instruction::Lea(dr, offset) => {
            let d = dr.index_spec();
            let o = offset.0;
            let w = 0xE000u16 | ((d as u16) << 9) | (o & 0x1FF);
            assert((w >> 12) & 0xF == 0xE && (w >> 9) & 0x7 == d && w & 0x1FF == o) by (bit_vector)
                requires
                    d < 8,
                    o < 512,
                    w == 0xE000u16 | ((d as u16) << 9) | (o & 0x1FF),
            ;
            lemma_reg_index_roundtrip(dr);
        },
        Instruction::Ret => {
            assert((0xC1C0u16 >> 12) & 0xF == 0xC && (0xC1C0u16 >> 6) & 0x7 == 7) by (bit_vector);
        },
        Instruction::Rti => {
            assert((0x8000u16 >> 12) & 0xF == 0x8) by (bit_vector);
        },
        Instruction::Shf(dr, sr, d, a, amount) => {
            let dd = dr.index_spec();
            let s = sr.index_spec();
            let db = d.0;
            let ab = a.0;
            let m = amount.0;
            let w = 0xD000u16 | ((dd as u16) << 9) | ((s as u16) << 6) | (if db {
                0x20u16
            } else {
                0u16
            }) | (if ab {
                0x10u16
            } else {
                0u16
            }) | ((m as u16) & 0xF);
            assert((w >> 12) & 0xF == 0xD && (w >> 9) & 0x7 == dd && (w >> 6) & 0x7 == s && ((w
                >> 5) & 0x1 == 1 <==> db) && ((w >> 4) & 0x1 == 1 <==> ab) && w & 0xF == m as u16)
                by (bit_vector)
                requires
                    dd < 8,
                    s < 8,
                    m < 16,
                    w == 0xD000u16 | ((dd as u16) << 9) | ((s as u16) << 6) | (if db {
                        0x20u16
                    } else {
                        0u16
                    }) | (if ab {
                        0x10u16
                    } else {
                        0u16
                    }) | ((m as u16) & 0xF),
            ;
            lemma_reg_index_roundtrip(dr);
            lemma_reg_index_roundtrip(sr);
        },
        Instruction::Stb(sr, base, offset) => {
            lemma_load_fields(0x3, sr.index_spec(), base.index_spec(), offset.0);
            lemma_reg_index_roundtrip(sr);
            lemma_reg_index_roundtrip(base);
        },
        Instruction::Sti(sr, base, offset) => {
            lemma_load_fields(0xB, sr.index_spec(), base.index_spec(), offset.0);
            lemma_reg_index_roundtrip(sr);
            lemma_reg_index_roundtrip(base);
        },
        Instruction::Stw(sr, base, offset) => {
            lemma_load_fields(0x7, sr.index_spec(), base.index_spec(), offset.0);
            lemma_reg_index_roundtrip(sr);
            lemma_reg_index_roundtrip(base);
        },
        Instruction::Trap(vect) => {
            let v = vect.0;
            assert(((0xF000u16 | (v as u16)) >> 12) & 0xF == 0xF && (0xF000u16 | (v as u16)) & 0xFF
                == v as u16) by (bit_vector);
        },
    }
}

/// Field recovery for the three-register arithmetic forms (ADD, AND, XOR).
proof fn lemma_arith_reg_fields(op: u16, d: u8, s1: u8, s2: u8)
    requires
        op == 0x1 || op == 0x5 || op == 0x9,
        d < 8,
        s1 < 8,
        s2 < 8,
    ensures
        ((op << 12) | ((d as u16) << 9) | ((s1 as u16) << 6) | (s2 as u16)) >> 12 & 0xF == op,
        ((op << 12) | ((d as u16) << 9) | ((s1 as u16) << 6) | (s2 as u16)) >> 5 & 0x1 == 0,
        ((op << 12) | ((d as u16) << 9) | ((s1 as u16) << 6) | (s2 as u16)) >> 9 & 0x7 == d,
        ((op << 12) | ((d as u16) << 9) | ((s1 as u16) << 6) | (s2 as u16)) >> 6 & 0x7 == s1,
        ((op << 12) | ((d as u16) << 9) | ((s1 as u16) << 6) | (s2 as u16)) & 0x7 == s2,
{
    assert(((op << 12) | ((d as u16) << 9) | ((s1 as u16) << 6) | (s2 as u16)) >> 12 & 0xF == op
        && ((op << 12) | ((d as u16) << 9) | ((s1 as u16) << 6) | (s2 as u16)) >> 5 & 0x1 == 0 && ((
    op << 12) | ((d as u16) << 9) | ((s1 as u16) << 6) | (s2 as u16)) >> 9 & 0x7 == d && ((op
        << 12) | ((d as u16) << 9) | ((s1 as u16) << 6) | (s2 as u16)) >> 6 & 0x7 == s1 && ((op
        << 12) | ((d as u16) << 9) | ((s1 as u16) << 6) | (s2 as u16)) & 0x7 == s2) by (bit_vector)
        requires
            op < 16,
            d < 8,
            s1 < 8,
            s2 < 8,
    ;
}

/// Field recovery for the immediate arithmetic forms (ADD, AND, XOR).
proof fn lemma_arith_imm_fields(op: u16, d: u8, s1: u8, imm: u8)
    requires
        op == 0x1 || op == 0x5 || op == 0x9,
        d < 8,
        s1 < 8,
        imm < 32,
    ensures
        ((op << 12) | ((d as u16) << 9) | ((s1 as u16) << 6) | 0x20u16 | ((imm as u16) & 0x1F))
            >> 12 & 0xF == op,
        ((op << 12) | ((d as u16) << 9) | ((s1 as u16) << 6) | 0x20u16 | ((imm as u16) & 0x1F))
            >> 5 & 0x1 == 1,
        ((op << 12) | ((d as u16) << 9) | ((s1 as u16) << 6) | 0x20u16 | ((imm as u16) & 0x1F))
            >> 9 & 0x7 == d,
        ((op << 12) | ((d as u16) << 9) | ((s1 as u16) << 6) | 0x20u16 | ((imm as u16) & 0x1F))
            >> 6 & 0x7 == s1,
        ((op << 12) | ((d as u16) << 9) | ((s1 as u16) << 6) | 0x20u16 | ((imm as u16) & 0x1F))
            & 0x1F == imm,
{
    assert(((op << 12) | ((d as u16) << 9) | ((s1 as u16) << 6) | 0x20u16 | ((imm as u16) & 0x1F))
        >> 12 & 0xF == op && ((op << 12) | ((d as u16) << 9) | ((s1 as u16) << 6) | 0x20u16 | ((
    imm as u16) & 0x1F)) >> 5 & 0x1 == 1 && ((op << 12) | ((d as u16) << 9) | ((s1 as u16) << 6)
        | 0x20u16 | ((imm as u16) & 0x1F)) >> 9 & 0x7 == d && ((op << 12) | ((d as u16) << 9) | ((
    s1 as u16) << 6) | 0x20u16 | ((imm as u16) & 0x1F)) >> 6 & 0x7 == s1 && ((op << 12) | ((
    d as u16) << 9) | ((s1 as u16) << 6) | 0x20u16 | ((imm as u16) & 0x1F)) & 0x1F == imm) by (bit_vector)
        requires
            op < 16,
            d < 8,
            s1 < 8,
            imm < 32,
    ;
}

/// Field recovery for the load and store families with a 6-bit offset.
proof fn lemma_load_fields(op: u16, d: u8, b: u8, off: u8)
    requires
        d < 8,
        b < 8,
        off < 64,
        op < 16,
    ensures
        ((op << 12) | ((d as u16) << 9) | ((b as u16) << 6) | ((off as u16) & 0x3F)) >> 12 & 0xF
            == op,
        ((op << 12) | ((d as u16) << 9) | ((b as u16) << 6) | ((off as u16) & 0x3F)) >> 9 & 0x7
            == d,
        ((op << 12) | ((d as u16) << 9) | ((b as u16) << 6) | ((off as u16) & 0x3F)) >> 6 & 0x7
            == b,
        ((op << 12) | ((d as u16) << 9) | ((b as u16) << 6) | ((off as u16) & 0x3F)) & 0x3F
            == off,
{
    assert(((op << 12) | ((d as u16) << 9) | ((b as u16) << 6) | ((off as u16) & 0x3F)) >> 12 & 0xF
        == op && ((op << 12) | ((d as u16) << 9) | ((b as u16) << 6) | ((off as u16) & 0x3F)) >> 9
        & 0x7 == d && ((op << 12) | ((d as u16) << 9) | ((b as u16) << 6) | ((off as u16) & 0x3F))
        >> 6 & 0x7 == b && ((op << 12) | ((d as u16) << 9) | ((b as u16) << 6) | ((off as u16)
        & 0x3F)) & 0x3F == off) by (bit_vector)
        requires
            op < 16,
            d < 8,
            b < 8,
            off < 64,
    ;
}

/// The two legal aliases resolve to their canonical decodings: the RET
/// pattern is exactly the encoding of `Jmp(Register7)`, and a NOT written as
/// XOR with an all-ones immediate decodes back as that XOR.
pub proof fn lemma_jmp_r7_aliases_ret()
    ensures
        Instruction::Jmp(Register::Register7).encode_spec() == Instruction::Ret.encode_spec(),
        Instruction::decode_spec(Instruction::Jmp(Register::Register7).encode_spec())
            == Instruction::Ret,
{
    assert(0xC000u16 | ((7u16) << 6) == 0xC1C0u16) by (bit_vector);
    assert((0xC1C0u16 >> 12) & 0xF == 0xC && (0xC1C0u16 >> 6) & 0x7 == 7) by (bit_vector);
}

} // verus!
