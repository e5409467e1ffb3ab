//! ADD instruction: parsing and encoding.

use std::str::FromStr;

use lc3b::{parse_to_program, AddInstruction, Immediate5, Instruction, Register};

#[test]
fn test_add_register_mode() {
    // ADD R2, R3, R4 ; R2 <- R3 + R4
    let source = "ADD R2, R3, R4";
    let instructions = parse_to_program(source).unwrap();

    assert_eq!(instructions.len(), 1);
    assert_eq!(
        instructions[0],
        Instruction::AddInstruction(AddInstruction::AddReg(
            Register::Register2,
            Register::Register3,
            Register::Register4,
        ))
    );
}

#[test]
fn test_add_immediate_mode() {
    // ADD R2, R3, #7 ; R2 <- R3 + 7
    let source = "ADD R2, R3, #7";
    let instructions = parse_to_program(source).unwrap();

    assert_eq!(instructions.len(), 1);
    assert_eq!(
        instructions[0],
        Instruction::AddInstruction(AddInstruction::AddImm(
            Register::Register2,
            Register::Register3,
            Immediate5::new(7).unwrap(),
        ))
    );
}

#[test]
fn test_add_encoding_register_mode() {
    // opcode=0001, DR=010 (R2), SR1=011 (R3), mode=000, SR2=100 (R4)
    let source = "ADD R2, R3, R4";
    let instructions = parse_to_program(source).unwrap();
    let encoded: u16 = u16::from(&instructions[0]);

    assert_eq!(encoded, 0b0001_010_011_000_100);
}

#[test]
fn test_add_encoding_immediate_mode() {
    // opcode=0001, DR=010 (R2), SR1=011 (R3), mode=1, imm5=00111
    let source = "ADD R2, R3, #7";
    let instructions = parse_to_program(source).unwrap();
    let encoded: u16 = u16::from(&instructions[0]);

    assert_eq!(encoded, 0b0001_010_011_1_00111);
}

#[test]
fn test_add_negative_immediate() {
    let source = "ADD R1, R1, #-1";
    let instructions = parse_to_program(source).unwrap();

    assert_eq!(instructions.len(), 1);
    assert_eq!(
        instructions[0],
        Instruction::AddInstruction(AddInstruction::AddImm(
            Register::Register1,
            Register::Register1,
            Immediate5::from_str("-1").unwrap(),
        ))
    );
}
