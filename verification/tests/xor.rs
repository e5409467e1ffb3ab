//! NOT as the XOR-immediate special case.

use lc3b::{parse_to_program, Immediate5, Instruction, Register, XorInstruction};

#[test]
fn test_not_as_xor() {
    // NOT R3, R2 is a special case of XOR R3, R2, #-1 (imm5 = 0x1F = -1)
    let source = "NOT R3, R2";
    let instructions = parse_to_program(source).unwrap();

    assert_eq!(instructions.len(), 1);
    assert_eq!(
        instructions[0],
        Instruction::XorInstruction(XorInstruction::XorImm(
            Register::Register3,
            Register::Register2,
            Immediate5::from_signed(-1).unwrap(),
        ))
    );

    // Verify encoding: 1001 011 010 1 11111
    let encoded: u16 = u16::from(&instructions[0]);
    assert_eq!(encoded, 0b1001_011_010_1_11111);
}
