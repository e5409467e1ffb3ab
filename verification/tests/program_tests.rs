//! The Program interface: assembly text to instructions and back to words.

use lc3b::{Instruction, Program};

#[test]
fn parse_two_line_program() {
    let program = r#"ADD R1, R2, 10; this is a program
ADD R2, R3, 30; blaha"#;
    Program::from_assembly(program).unwrap();
}

#[test]
fn encode_program_to_words() {
    let program = r#"ADD R1, R2, 0; R1 = R2 + R0
ADD R3, R1, 5; R3 = R1 + 5"#;
    let prog = Program::from_assembly(program).unwrap();
    let words = prog.to_words();

    assert_eq!(words.len(), 2);

    let decoded0 = Instruction::try_from(words[0]).unwrap();
    let decoded1 = Instruction::try_from(words[1]).unwrap();

    assert_eq!(decoded0, prog.instructions[0]);
    assert_eq!(decoded1, prog.instructions[1]);
}
