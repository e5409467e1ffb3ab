//! JSR and JSRR instructions.

use lc3b::{parse_to_program, Instruction, Register};

#[test]
fn test_jsr() {
    // JSR is at address 0, QUEUE at address 2: offset = 2 - (0 + 1) = 1
    let source = r#"
        JSR QUEUE
        ADD R0, R0, #0
QUEUE:  ADD R1, R1, #1
"#;
    let instructions = parse_to_program(source).unwrap();

    assert_eq!(instructions.len(), 3);
}

#[test]
fn test_jsr_encoding() {
    // 0100 1 00000000001
    let source = r#"
        JSR QUEUE
        ADD R0, R0, #0
QUEUE:  ADD R1, R1, #1
"#;
    let instructions = parse_to_program(source).unwrap();
    let encoded: u16 = u16::from(&instructions[0]);

    assert_eq!(encoded, 0b0100_1_00000000001);
}

#[test]
fn test_jsrr() {
    let source = "JSRR R3";
    let instructions = parse_to_program(source).unwrap();

    assert_eq!(instructions.len(), 1);
    assert_eq!(instructions[0], Instruction::Jsrr(Register::Register3));
}

#[test]
fn test_jsrr_encoding() {
    // 0100 0 00 011 000000
    let source = "JSRR R3";
    let instructions = parse_to_program(source).unwrap();
    let encoded: u16 = u16::from(&instructions[0]);

    assert_eq!(encoded, 0b0100_0_00_011_000000);
}
