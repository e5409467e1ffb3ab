//! TRAP instruction and its aliases.

use lc3b::{parse_to_program, Instruction, TrapVect8};

#[test]
fn test_trap_in() {
    let source = "TRAP x23";
    let instructions = parse_to_program(source).unwrap();

    assert_eq!(instructions.len(), 1);
    assert_eq!(instructions[0], Instruction::Trap(TrapVect8::new(0x23)));
}

#[test]
fn test_trap_encoding() {
    // 1111 0000 00100011
    let source = "TRAP x23";
    let instructions = parse_to_program(source).unwrap();
    let encoded: u16 = u16::from(&instructions[0]);

    assert_eq!(encoded, 0b1111_0000_00100011);
}

#[test]
fn trap_test_trap_halt() {
    let source = "TRAP x25";
    let instructions = parse_to_program(source).unwrap();

    assert_eq!(instructions.len(), 1);
    assert_eq!(instructions[0], Instruction::Trap(TrapVect8::new(0x25)));
}

#[test]
fn trap_test_trap_getc() {
    let source = "TRAP x20";
    let instructions = parse_to_program(source).unwrap();

    assert_eq!(instructions.len(), 1);
    assert_eq!(instructions[0], Instruction::Trap(TrapVect8::new(0x20)));
}

#[test]
fn test_halt_alias() {
    let source = "HALT";
    let instructions = parse_to_program(source).unwrap();

    assert_eq!(instructions.len(), 1);
    assert_eq!(instructions[0], Instruction::Trap(TrapVect8::new(0x25)));
}

#[test]
fn test_getc_alias() {
    let source = "GETC";
    let instructions = parse_to_program(source).unwrap();

    assert_eq!(instructions.len(), 1);
    assert_eq!(instructions[0], Instruction::Trap(TrapVect8::new(0x20)));
}

#[test]
fn test_out_alias() {
    let source = "OUT";
    let instructions = parse_to_program(source).unwrap();

    assert_eq!(instructions.len(), 1);
    assert_eq!(instructions[0], Instruction::Trap(TrapVect8::new(0x21)));
}

#[test]
fn test_puts_alias() {
    let source = "PUTS";
    let instructions = parse_to_program(source).unwrap();

    assert_eq!(instructions.len(), 1);
    assert_eq!(instructions[0], Instruction::Trap(TrapVect8::new(0x22)));
}

#[test]
fn test_in_alias() {
    let source = "IN";
    let instructions = parse_to_program(source).unwrap();

    assert_eq!(instructions.len(), 1);
    assert_eq!(instructions[0], Instruction::Trap(TrapVect8::new(0x23)));
}

#[test]
fn test_putsp_alias() {
    let source = "PUTSP";
    let instructions = parse_to_program(source).unwrap();

    assert_eq!(instructions.len(), 1);
    assert_eq!(instructions[0], Instruction::Trap(TrapVect8::new(0x24)));
}
