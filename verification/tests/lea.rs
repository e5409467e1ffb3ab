//! LEA instruction: stored offsets are halved word offsets.

use lc3b::{parse_to_program, Instruction, PCOffset9, Register};

#[test]
fn test_lea() {
    // Raw offset = 3 - (0 + 1) = 2, stored offset = 2 / 2 = 1
    let source = r#"
        LEA R4, TARGET
        ADD R0, R0, #0
        ADD R0, R0, #0
TARGET: ADD R1, R1, #1
"#;
    let instructions = parse_to_program(source).unwrap();

    assert_eq!(instructions.len(), 4);
    assert_eq!(
        instructions[0],
        Instruction::Lea(Register::Register4, PCOffset9::new(1))
    );
}

#[test]
fn test_lea_encoding() {
    // 1110 100 000000001
    let source = r#"
        LEA R4, TARGET
        ADD R0, R0, #0
        ADD R0, R0, #0
TARGET: ADD R1, R1, #1
"#;
    let instructions = parse_to_program(source).unwrap();
    let encoded: u16 = u16::from(&instructions[0]);

    assert_eq!(encoded, 0b1110_100_000000001);
}
