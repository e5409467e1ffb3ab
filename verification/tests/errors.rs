//! Error variants of the operand constructors and the assembler.

use lc3b::{assemble, Error, Immediate4, Immediate5};

#[test]
fn test_immediate5_out_of_range() {
    assert!(matches!(
        Immediate5::new(32).unwrap_err(),
        Error::ValueOutOfRange { .. }
    ));
    assert!(matches!(
        Immediate5::from_signed(16).unwrap_err(),
        Error::ValueOutOfRange { .. }
    ));
    assert!(matches!(
        Immediate5::from_signed(-17).unwrap_err(),
        Error::ValueOutOfRange { .. }
    ));
    assert!(Immediate5::new(31).is_ok());
}

#[test]
fn test_immediate4_out_of_range() {
    assert!(matches!(
        Immediate4::new(16).unwrap_err(),
        Error::ValueOutOfRange { .. }
    ));
    assert!(Immediate4::new(15).is_ok());
}

#[test]
fn test_trap_vector_out_of_range() {
    let result = assemble("TRAP x100");
    assert!(matches!(
        result.unwrap_err(),
        Error::TrapVectorOutOfRange(0x100)
    ));
}

#[test]
fn test_invalid_register() {
    let result = assemble("JMP R9");
    assert!(matches!(result.unwrap_err(), Error::InvalidRegister(_)));
}

#[test]
fn test_lea_alignment_error() {
    let source = r#"
    LEA R0, TARGET
    ADD R0, R0, #0
TARGET: ADD R0, R0, #0
"#;
    let result = assemble(source);
    let err = result.unwrap_err();
    assert!(matches!(err, Error::AlignmentError(_)));
    assert!(err.message().contains("word-aligned"));
}

#[test]
fn test_unknown_opcode_error() {
    let result = assemble("FROB R1, R2");
    assert!(matches!(result.unwrap_err(), Error::ParseAssembly(_)));
}

#[test]
fn test_branch_offset_out_of_range() {
    // A backward branch past -256 words does not fit a 9-bit offset.
    let mut source = String::from("FAR: ADD R0, R0, #0\n");
    for _ in 0..300 {
        source.push_str("    ADD R0, R0, #0\n");
    }
    source.push_str("    BRz FAR\n");
    let result = assemble(&source);
    assert!(matches!(
        result.unwrap_err(),
        Error::ValueOutOfRange { .. }
    ));
}
