//! Label handling and basic parsing of the assembler.

use lc3b::{
    parse_to_program, AddInstruction, Condition, Immediate5, Instruction, PCOffset9, Register,
};

#[test]
fn test_add_instructions() {
    let test_asm = r#"
    ADD R1, R1, 8; this is a comment
    ADD R1, R2, 10;
"#;

    let instructions = parse_to_program(test_asm).unwrap();
    assert_eq!(
        instructions,
        [
            Instruction::AddInstruction(AddInstruction::AddImm(
                Register::Register1,
                Register::Register1,
                Immediate5::new(8,).unwrap(),
            ),),
            Instruction::AddInstruction(AddInstruction::AddImm(
                Register::Register1,
                Register::Register2,
                Immediate5::new(10,).unwrap(),
            ),),
        ]
    )
}

#[test]
fn test_label_forward_reference() {
    let test_asm = r#"
    BRz skip
    ADD R1, R1, #1
skip:
    ADD R2, R2, #2
"#;

    let instructions = parse_to_program(test_asm).unwrap();
    assert_eq!(instructions.len(), 3);

    assert_eq!(
        instructions[0],
        Instruction::Br(
            Condition { n: false, z: true, p: false },
            PCOffset9::new(1)
        )
    );
}

#[test]
fn test_label_backward_reference() {
    let test_asm = r#"
loop:
    ADD R0, R0, #-1
    BRp loop
"#;

    let instructions = parse_to_program(test_asm).unwrap();
    assert_eq!(instructions.len(), 2);

    assert_eq!(
        instructions[1],
        Instruction::Br(
            Condition { n: false, z: false, p: true },
            PCOffset9::new(-2)
        )
    );
}

#[test]
fn test_duplicate_label_error() {
    let test_asm = r#"
label:
    ADD R0, R0, #1
label:
    ADD R1, R1, #1
"#;

    let result = parse_to_program(test_asm);
    assert!(result.is_err());
    assert!(result.unwrap_err().message().contains("Duplicate label"));
}

#[test]
fn test_undefined_label_error() {
    let test_asm = r#"
    BRz undefined_label
"#;

    let result = parse_to_program(test_asm);
    assert!(result.is_err());
    assert!(result.unwrap_err().message().contains("Undefined label"));
}
