//! The stated properties of the instruction format and the engine, checked
//! on concrete values: the encode/decode round trip at boundary operands,
//! sign extension at every field width, the flag law, the documented BR,
//! LDB/STB, PUTS and JSR/RET scenarios, idempotence after HALT, and the
//! silence of unknown TRAP vectors.

use lc3b::{
    AddInstruction, AndInstruction, Bit, BufferedIO, Computer, Condition, Immediate4, Immediate5,
    Instruction, PCOffset11, PCOffset6, PCOffset9, Register, TrapVect8, XorInstruction, IO,
};

fn roundtrip(i: Instruction) {
    let word = i.encode();
    let back = Instruction::try_from(word).unwrap();
    assert_eq!(back, i);
}

#[test]
fn test_roundtrip_all_families_boundaries() {
    let r0 = Register::Register0;
    let r7 = Register::Register7;
    let imm_min = Immediate5::from_signed(-16).unwrap();
    let imm_max = Immediate5::from_signed(15).unwrap();
    let off6_min = PCOffset6::new(-32);
    let off6_max = PCOffset6::new(31);
    let off9_min = PCOffset9::new(-256);
    let off9_max = PCOffset9::new(255);
    let off11_min = PCOffset11::new(-1024);
    let off11_max = PCOffset11::new(1023);

    roundtrip(Instruction::AddInstruction(AddInstruction::AddReg(r0, r7, r0)));
    roundtrip(Instruction::AddInstruction(AddInstruction::AddImm(r7, r0, imm_min)));
    roundtrip(Instruction::AddInstruction(AddInstruction::AddImm(r0, r7, imm_max)));
    roundtrip(Instruction::AndInstruction(AndInstruction::AndReg(r7, r0, r7)));
    roundtrip(Instruction::AndInstruction(AndInstruction::AndImm(r0, r0, imm_min)));
    roundtrip(Instruction::XorInstruction(XorInstruction::XorReg(r0, r7, r0)));
    roundtrip(Instruction::XorInstruction(XorInstruction::XorImm(r7, r7, imm_max)));
    roundtrip(Instruction::Br(Condition { n: true, z: false, p: true }, off9_min));
    roundtrip(Instruction::Br(Condition { n: false, z: false, p: false }, off9_max));
    roundtrip(Instruction::Jmp(Register::Register6));
    roundtrip(Instruction::Jsr(off11_min));
    roundtrip(Instruction::Jsr(off11_max));
    roundtrip(Instruction::Jsrr(r7));
    roundtrip(Instruction::Ldb(r0, r7, off6_min));
    roundtrip(Instruction::Ldi(r7, r0, off6_max));
    roundtrip(Instruction::Ldr(r0, r0, off6_min));
    roundtrip(Instruction::Lea(r7, off9_max));
    roundtrip(Instruction::Ret);
    roundtrip(Instruction::Rti);
    roundtrip(Instruction::Shf(r0, r7, Bit::new(false), Bit::new(false), Immediate4::new(0).unwrap()));
    roundtrip(Instruction::Shf(r7, r0, Bit::new(true), Bit::new(true), Immediate4::new(15).unwrap()));
    roundtrip(Instruction::Stb(r7, r0, off6_max));
    roundtrip(Instruction::Sti(r0, r7, off6_min));
    roundtrip(Instruction::Stw(r7, r7, off6_max));
    roundtrip(Instruction::Trap(TrapVect8::new(0x00)));
    roundtrip(Instruction::Trap(TrapVect8::new(0xFF)));
}

#[test]
fn test_jmp_r7_aliases_ret() {
    // The one pattern that does not come back as itself: JMP R7 is the
    // definition of RET.
    let word = Instruction::Jmp(Register::Register7).encode();
    assert_eq!(word, Instruction::Ret.encode());
    assert_eq!(Instruction::try_from(word).unwrap(), Instruction::Ret);
}

#[test]
fn test_sign_extension_boundaries() {
    // 6-bit: 0b100000 -> -32, 0b011111 -> +31
    assert_eq!(PCOffset6::new(-32).sign_extend(), -32);
    assert_eq!(PCOffset6::new(31).sign_extend(), 31);
    // 9-bit: 0b100000000 -> -256, 0b011111111 -> +255
    assert_eq!(PCOffset9::new(-256).sign_extend(), -256);
    assert_eq!(PCOffset9::new(255).sign_extend(), 255);
    // 11-bit: 0b10000000000 -> -1024, 0b01111111111 -> +1023
    assert_eq!(PCOffset11::new(-1024).sign_extend(), -1024);
    assert_eq!(PCOffset11::new(1023).sign_extend(), 1023);
}

#[test]
fn test_sign_extension_5_bit_through_add() {
    // 5-bit 0b10000 is -16, 0b01111 is +15: visible through ADD-immediate.
    let mut computer = Computer::new(BufferedIO::new());
    let program = vec![
        0x1030, // ADD R0, R0, #-16 (imm5 = 0b10000)
        0x132F, // ADD R1, R1, #15  (imm5 = 0b01111)
        0xF025, // HALT
    ];
    computer.load_program(&program, 0x3000);
    computer.run(10).unwrap();
    assert_eq!(computer.register(0), (-16i16) as u16);
    assert_eq!(computer.register(1), 15);
}

#[test]
fn test_flag_law_exactly_one_flag() {
    // negative, zero and positive results each set exactly one flag.
    let mut computer = Computer::new(BufferedIO::new());
    let program = vec![
        0x1030, // ADD R0, R0, #-16 -> negative
        0x5020, // AND R0, R0, #0   -> zero
        0x1021, // ADD R0, R0, #1   -> positive
        0xF025, // HALT
    ];
    computer.load_program(&program, 0x3000);
    computer.next_instruction().unwrap();
    assert!(computer.condition_n() && !computer.condition_z() && !computer.condition_p());
    computer.next_instruction().unwrap();
    assert!(!computer.condition_n() && computer.condition_z() && !computer.condition_p());
    computer.next_instruction().unwrap();
    assert!(!computer.condition_n() && !computer.condition_z() && computer.condition_p());
}

#[test]
fn test_br_z_taken_scenario() {
    // With flags (n=false, z=true, p=false), the word 0b0000_0_1_0_000000001
    // (BR z-only, offset 1) at PC = 0x3000 takes the branch: PC becomes
    // 0x3002 after that step.
    let mut computer = Computer::new(BufferedIO::new());
    let program = vec![
        0x5020, // AND R0, R0, #0 -> flags (false, true, false)
        0b0000_0_1_0_000000001u16,
    ];
    computer.load_program(&program, 0x2FFF);
    computer.next_instruction().unwrap();
    assert_eq!(computer.program_counter(), 0x3000);
    assert!(computer.condition_z() && !computer.condition_n() && !computer.condition_p());
    computer.next_instruction().unwrap();
    assert_eq!(computer.program_counter(), 0x3002);
}

#[test]
fn test_ldb_even_and_odd_byte_addresses() {
    // Word 0x4142 at address 0x10: an even byte address reads the
    // sign-extended low byte 0x0042, an odd one the high byte 0x0041.
    let mut computer = Computer::new(BufferedIO::new());
    computer.write_memory(0x10, 0x4142);
    let program = vec![
        0x122F, // ADD R1, R1, #15
        0x126F, // ADD R1, R1, #15
        0x1262, // ADD R1, R1, #2   -> R1 = 32 = byte address 0x20
        0x2440, // LDB R2, R1, #0   -> even byte address
        0x2641, // LDB R3, R1, #1   -> odd byte address
        0xF025, // HALT
    ];
    computer.load_program(&program, 0x3000);
    computer.run(10).unwrap();
    assert_eq!(computer.register(1), 32);
    assert_eq!(computer.register(2), 0x0042);
    assert_eq!(computer.register(3), 0x0041);
}

#[test]
fn test_stb_merges_selected_half() {
    // STB writes the low byte of the source into the selected half and
    // leaves the other half untouched.
    let mut computer = Computer::new(BufferedIO::new());
    computer.write_memory(0x10, 0x4142);
    let program = vec![
        0x122F, // ADD R1, R1, #15
        0x126F, // ADD R1, R1, #15
        0x1262, // ADD R1, R1, #2   -> R1 = 32 = byte address 0x20
        0x192F, // ADD R4, R4, #15
        0x192F, // ADD R4, R4, #15  -> R4 = 30 = 0x1E
        0x3840, // STB R4, R1, #0   -> low half := 0x1E
        0x3841, // STB R4, R1, #1   -> high half := 0x1E
        0xF025, // HALT
    ];
    computer.load_program(&program, 0x3000);
    computer.next_instruction().unwrap();
    computer.next_instruction().unwrap();
    computer.next_instruction().unwrap();
    computer.next_instruction().unwrap();
    computer.next_instruction().unwrap();
    computer.next_instruction().unwrap();
    assert_eq!(computer.read_memory(0x10), 0x411E);
    computer.next_instruction().unwrap();
    assert_eq!(computer.read_memory(0x10), 0x1E1E);
}

#[test]
fn test_puts_scenario() {
    // Words ['H', 'i', 0] at address 0x50 and R0 = 0x50: TRAP 0x22 then
    // TRAP 0x25 writes "Hi" and halts.
    let mut computer = Computer::new(BufferedIO::new());
    computer.write_memory(0x50, 'H' as u16);
    computer.write_memory(0x51, 'i' as u16);
    computer.write_memory(0x52, 0);
    let program = vec![
        0x102F, // ADD R0, R0, #15
        0x102F, // ADD R0, R0, #15
        0x102F, // ADD R0, R0, #15
        0x102F, // ADD R0, R0, #15
        0x102F, // ADD R0, R0, #15
        0x1025, // ADD R0, R0, #5 -> R0 = 80 = 0x50
        0xF022, // TRAP x22 (PUTS)
        0xF025, // TRAP x25 (HALT)
    ];
    computer.load_program(&program, 0x3000);
    computer.run(100).unwrap();
    assert_eq!(computer.io().output(), "Hi");
    assert!(computer.io().is_halted());
}

#[test]
fn test_jsr_then_ret_resumes_after_call() {
    // JSR into a subroutine that immediately RETs leaves R7 holding the
    // address following the JSR, and execution resumes there.
    let mut computer = Computer::new(BufferedIO::new());
    let program = vec![
        0x4801, // JSR #1 -> target 0x3001 + 2 = 0x3003
        0x1261, // ADD R1, R1, #1 (the return point)
        0xF025, // HALT
        0xC1C0, // RET
    ];
    computer.load_program(&program, 0x3000);
    computer.next_instruction().unwrap();
    assert_eq!(computer.register(7), 0x3001);
    assert_eq!(computer.program_counter(), 0x3003);
    computer.next_instruction().unwrap();
    assert_eq!(computer.program_counter(), 0x3001);
    computer.run(10).unwrap();
    assert_eq!(computer.register(1), 1);
    assert!(computer.io().is_halted());
}

#[test]
fn test_run_zero_budget_executes_nothing() {
    // run(0) returns Ok(0) and changes nothing, on a fresh machine and on
    // a loaded one.
    let mut computer = Computer::new(BufferedIO::new());
    assert_eq!(computer.run(0).unwrap(), 0);
    let program = vec![
        0x1261, // ADD R1, R1, #1
        0xF025, // HALT
    ];
    computer.load_program(&program, 0x3000);
    assert_eq!(computer.run(0).unwrap(), 0);
    assert_eq!(computer.register(1), 0);
    assert_eq!(computer.program_counter(), 0x3000);
    assert!(!computer.io().is_halted());
}

#[test]
fn test_in_trap_prompts_echoes_and_reads() {
    // TRAP x23 (IN) writes the prompt, echoes the character, and stores it
    // in R0; with no queued input, R0 is left unmodified.
    let mut computer = Computer::new(BufferedIO::new());
    computer.io_mut().push_input('Q');
    let program = vec![
        0xF023, // TRAP x23 (IN)
        0xF025, // HALT
    ];
    computer.load_program(&program, 0x3000);
    computer.run(10).unwrap();
    assert_eq!(computer.register(0), 'Q' as u16);
    assert_eq!(computer.io().output(), "Input a character> Q");

    let mut empty = Computer::new(BufferedIO::new());
    empty.load_program(&program, 0x3000);
    empty.run(10).unwrap();
    assert_eq!(empty.register(0), 0);
    assert!(empty.io().is_halted());
}

#[test]
fn test_run_idempotent_after_halt() {
    // After HALT, every further run executes zero instructions and changes
    // nothing.
    let mut computer = Computer::new(BufferedIO::new());
    let program = vec![
        0x1261, // ADD R1, R1, #1
        0xF025, // HALT
    ];
    computer.load_program(&program, 0x3000);
    let first = computer.run(100).unwrap();
    assert_eq!(first, 2);
    let r1 = computer.register(1);
    let pc = computer.program_counter();
    assert_eq!(computer.run(100).unwrap(), 0);
    assert_eq!(computer.run(7).unwrap(), 0);
    assert_eq!(computer.register(1), r1);
    assert_eq!(computer.program_counter(), pc);
    assert!(computer.io().is_halted());
}

#[test]
fn test_unknown_trap_vector_is_noop() {
    // TRAP 0x99 executes as a no-op: no register, memory or flag change
    // besides the normal PC increment, and no output.
    let mut computer = Computer::new(BufferedIO::new());
    let program = vec![
        0x1261, // ADD R1, R1, #1
        0xF099, // TRAP x99 (unmapped)
        0xF025, // HALT
    ];
    computer.load_program(&program, 0x3000);
    computer.next_instruction().unwrap();
    let regs_before = *computer.registers();
    let cond_before = computer.condition();
    let pc_before = computer.program_counter();
    let mem_before = computer.read_memory(0x3000);
    computer.next_instruction().unwrap();
    assert_eq!(*computer.registers(), regs_before);
    assert_eq!(computer.condition(), cond_before);
    assert_eq!(computer.program_counter(), pc_before + 1);
    assert_eq!(computer.read_memory(0x3000), mem_before);
    assert_eq!(computer.io().output(), "");
    assert!(!computer.io().is_halted());
}

#[test]
fn test_rti_is_fatal_and_leaves_state() {
    // RTI decodes but does not execute: the step fails and the PC stays at
    // its pre-fault value.
    let mut computer = Computer::new(BufferedIO::new());
    let program = vec![0x8000]; // RTI
    computer.load_program(&program, 0x3000);
    let r = computer.next_instruction();
    assert!(r.is_err());
    assert!(matches!(r.unwrap_err(), lc3b::Error::UnimplementedInstruction(_)));
    assert_eq!(computer.program_counter(), 0x3000);
}
