//! BR instruction: condition suffixes and PC-relative offsets.

use lc3b::{parse_to_program, Condition, Instruction, PCOffset9};

#[test]
fn test_br_zp_forward() {
    let source = r#"
        BRzp LOOP
LOOP:   ADD R0, R0, #0
"#;
    let instructions = parse_to_program(source).unwrap();

    assert_eq!(instructions.len(), 2);
    // From address 0, LOOP is at address 1: offset = 1 - (0 + 1) = 0
    assert_eq!(
        instructions[0],
        Instruction::Br(
            Condition { n: false, z: true, p: true },
            PCOffset9::new(0)
        )
    );
}

#[test]
fn test_br_unconditional() {
    let source = r#"
        BR NEXT
        ADD R1, R1, #1
NEXT:   ADD R2, R2, #2
"#;
    let instructions = parse_to_program(source).unwrap();

    assert_eq!(instructions.len(), 3);
    // BR is at address 0, NEXT at address 2: offset = 2 - (0 + 1) = 1
    assert_eq!(
        instructions[0],
        Instruction::Br(
            Condition { n: true, z: true, p: true },
            PCOffset9::new(1)
        )
    );
}

#[test]
fn test_brn() {
    let source = r#"
        BRn NEG
NEG:    ADD R0, R0, #0
"#;
    let instructions = parse_to_program(source).unwrap();

    assert_eq!(
        instructions[0],
        Instruction::Br(
            Condition { n: true, z: false, p: false },
            PCOffset9::new(0)
        )
    );
}

#[test]
fn test_brz() {
    let source = r#"
        BRz ZERO
ZERO:   ADD R0, R0, #0
"#;
    let instructions = parse_to_program(source).unwrap();

    assert_eq!(
        instructions[0],
        Instruction::Br(
            Condition { n: false, z: true, p: false },
            PCOffset9::new(0)
        )
    );
}

#[test]
fn test_brp() {
    let source = r#"
        BRp POS
POS:    ADD R0, R0, #0
"#;
    let instructions = parse_to_program(source).unwrap();

    assert_eq!(
        instructions[0],
        Instruction::Br(
            Condition { n: false, z: false, p: true },
            PCOffset9::new(0)
        )
    );
}

#[test]
fn test_brnz() {
    let source = r#"
        BRnz LABEL
LABEL:  ADD R0, R0, #0
"#;
    let instructions = parse_to_program(source).unwrap();

    assert_eq!(
        instructions[0],
        Instruction::Br(
            Condition { n: true, z: true, p: false },
            PCOffset9::new(0)
        )
    );
}

#[test]
fn test_brnp() {
    let source = r#"
        BRnp LABEL
LABEL:  ADD R0, R0, #0
"#;
    let instructions = parse_to_program(source).unwrap();

    assert_eq!(
        instructions[0],
        Instruction::Br(
            Condition { n: true, z: false, p: true },
            PCOffset9::new(0)
        )
    );
}

#[test]
fn test_brnzp() {
    let source = r#"
        BRnzp LABEL
LABEL:  ADD R0, R0, #0
"#;
    let instructions = parse_to_program(source).unwrap();

    assert_eq!(
        instructions[0],
        Instruction::Br(
            Condition { n: true, z: true, p: true },
            PCOffset9::new(0)
        )
    );
}

#[test]
fn test_br_backward_reference() {
    let source = r#"
LOOP:   ADD R0, R0, #-1
        BRp LOOP
"#;
    let instructions = parse_to_program(source).unwrap();

    assert_eq!(instructions.len(), 2);
    // BRp is at address 1, LOOP at address 0: offset = 0 - (1 + 1) = -2
    assert_eq!(
        instructions[1],
        Instruction::Br(
            Condition { n: false, z: false, p: true },
            PCOffset9::new(-2)
        )
    );
}

#[test]
fn test_br_encoding() {
    // 0000 0 1 1 000000000
    let source = r#"
        BRzp LABEL
LABEL:  ADD R0, R0, #0
"#;
    let instructions = parse_to_program(source).unwrap();
    let encoded: u16 = u16::from(&instructions[0]);

    assert_eq!(encoded, 0b0000_0_1_1_000000000);
}
