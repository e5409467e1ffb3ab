//! NOT instruction, encoded as XOR with immediate -1.

use lc3b::{parse_to_program, Immediate5, Instruction, Register, XorInstruction};

#[test]
fn test_not() {
    // NOT R4, R2 ; R4 <- NOT(R2), encoded as XOR R4, R2, #-1
    let source = "NOT R4, R2";
    let instructions = parse_to_program(source).unwrap();

    assert_eq!(instructions.len(), 1);
    assert_eq!(
        instructions[0],
        Instruction::XorInstruction(XorInstruction::XorImm(
            Register::Register4,
            Register::Register2,
            Immediate5::from_signed(-1).unwrap(),
        ))
    );
}

#[test]
fn test_not_encoding() {
    // 1001 100 010 1 11111
    let source = "NOT R4, R2";
    let instructions = parse_to_program(source).unwrap();
    let encoded: u16 = u16::from(&instructions[0]);

    assert_eq!(encoded, 0b1001_100_010_1_11111);
}

#[test]
fn test_not_same_register() {
    let source = "NOT R3, R3";
    let instructions = parse_to_program(source).unwrap();

    assert_eq!(instructions.len(), 1);
    assert_eq!(
        instructions[0],
        Instruction::XorInstruction(XorInstruction::XorImm(
            Register::Register3,
            Register::Register3,
            Immediate5::from_signed(-1).unwrap(),
        ))
    );
}
