//! JMP and RET instructions.

use lc3b::{parse_to_program, Instruction, Register};

#[test]
fn test_jmp() {
    let source = "JMP R2";
    let instructions = parse_to_program(source).unwrap();

    assert_eq!(instructions.len(), 1);
    assert_eq!(instructions[0], Instruction::Jmp(Register::Register2));
}

#[test]
fn test_jmp_encoding() {
    // 1100 000 010 000000
    let source = "JMP R2";
    let instructions = parse_to_program(source).unwrap();
    let encoded: u16 = u16::from(&instructions[0]);

    assert_eq!(encoded, 0b1100_000_010_000000);
}

#[test]
fn test_ret() {
    let source = "RET";
    let instructions = parse_to_program(source).unwrap();

    assert_eq!(instructions.len(), 1);
    assert_eq!(instructions[0], Instruction::Ret);
}

#[test]
fn test_ret_encoding() {
    // 1100 000 111 000000
    let source = "RET";
    let instructions = parse_to_program(source).unwrap();
    let encoded: u16 = u16::from(&instructions[0]);

    assert_eq!(encoded, 0b1100_000_111_000000);
}
