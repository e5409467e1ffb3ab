//! AND instruction: parsing and encoding.

use lc3b::{parse_to_program, AndInstruction, Immediate5, Instruction, Register};

#[test]
fn test_and_register_mode() {
    let source = "AND R2, R3, R4";
    let instructions = parse_to_program(source).unwrap();

    assert_eq!(instructions.len(), 1);
    assert_eq!(
        instructions[0],
        Instruction::AndInstruction(AndInstruction::AndReg(
            Register::Register2,
            Register::Register3,
            Register::Register4,
        ))
    );
}

#[test]
fn test_and_immediate_mode() {
    let source = "AND R2, R3, #7";
    let instructions = parse_to_program(source).unwrap();

    assert_eq!(instructions.len(), 1);
    assert_eq!(
        instructions[0],
        Instruction::AndInstruction(AndInstruction::AndImm(
            Register::Register2,
            Register::Register3,
            Immediate5::new(7).unwrap(),
        ))
    );
}

#[test]
fn test_and_encoding_register_mode() {
    let source = "AND R2, R3, R4";
    let instructions = parse_to_program(source).unwrap();
    let encoded: u16 = u16::from(&instructions[0]);

    assert_eq!(encoded, 0b0101_010_011_000_100);
}

#[test]
fn test_and_encoding_immediate_mode() {
    let source = "AND R2, R3, #7";
    let instructions = parse_to_program(source).unwrap();
    let encoded: u16 = u16::from(&instructions[0]);

    assert_eq!(encoded, 0b0101_010_011_1_00111);
}
