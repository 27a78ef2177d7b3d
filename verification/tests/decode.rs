use chip8::{Engine, EngineError, Instruction, InstructionType};

#[test]
fn test_decode() {
    let engine = Engine::new();
    assert!(engine.is_ok());
}

#[test]
fn test_instruction_fields() {
    let i = Instruction::new(0xD123);
    assert_eq!(i.instruction(), 0xD123);
    assert_eq!(i.opcode(), 0xD);
    assert_eq!(i.x(), 0x1);
    assert_eq!(i.y(), 0x2);
    assert_eq!(i.lowest_nibble(), 0x3);
    assert_eq!(i.lowest_byte(), 0x23);
    assert_eq!(i.highest_byte(), 0xD1);
    assert_eq!(i.address(), 0x123);
}

#[test]
fn test_instruction_types() {
    assert_eq!(
        Instruction::new(0x00E0).instruction_type(),
        Ok(InstructionType::CLS)
    );
    assert_eq!(
        Instruction::new(0x00EE).instruction_type(),
        Ok(InstructionType::RET)
    );
    assert_eq!(
        Instruction::new(0x0123).instruction_type(),
        Ok(InstructionType::SYS)
    );
    assert_eq!(
        Instruction::new(0x1200).instruction_type(),
        Ok(InstructionType::JPA)
    );
    assert_eq!(
        Instruction::new(0x2204).instruction_type(),
        Ok(InstructionType::CALL)
    );
    assert_eq!(
        Instruction::new(0x3A42).instruction_type(),
        Ok(InstructionType::SEV)
    );
    assert_eq!(
        Instruction::new(0x4A42).instruction_type(),
        Ok(InstructionType::SNEV)
    );
    assert_eq!(
        Instruction::new(0x5AB0).instruction_type(),
        Ok(InstructionType::SER)
    );
    assert_eq!(
        Instruction::new(0x6A42).instruction_type(),
        Ok(InstructionType::LDV)
    );
    assert_eq!(
        Instruction::new(0x7A42).instruction_type(),
        Ok(InstructionType::ADDV)
    );
    assert_eq!(
        Instruction::new(0x8AB0).instruction_type(),
        Ok(InstructionType::LDR)
    );
    assert_eq!(
        Instruction::new(0x8AB1).instruction_type(),
        Ok(InstructionType::ORR)
    );
    assert_eq!(
        Instruction::new(0x8AB2).instruction_type(),
        Ok(InstructionType::ANDR)
    );
    assert_eq!(
        Instruction::new(0x8AB3).instruction_type(),
        Ok(InstructionType::XORR)
    );
    assert_eq!(
        Instruction::new(0x8AB4).instruction_type(),
        Ok(InstructionType::ANDR_CARRY)
    );
    assert_eq!(
        Instruction::new(0x8AB5).instruction_type(),
        Ok(InstructionType::SUBR_BORROW)
    );
    assert_eq!(
        Instruction::new(0x8AB6).instruction_type(),
        Ok(InstructionType::SHR_STORE)
    );
    assert_eq!(
        Instruction::new(0x8AB7).instruction_type(),
        Ok(InstructionType::SUBR_BORROW_REVERSE)
    );
    assert_eq!(
        Instruction::new(0x8ABE).instruction_type(),
        Ok(InstructionType::SHL_STORE)
    );
    assert_eq!(
        Instruction::new(0x9AB0).instruction_type(),
        Ok(InstructionType::SNER)
    );
    assert_eq!(
        Instruction::new(0xA123).instruction_type(),
        Ok(InstructionType::LDA)
    );
    assert_eq!(
        Instruction::new(0xB123).instruction_type(),
        Ok(InstructionType::JPAD)
    );
    assert_eq!(
        Instruction::new(0xCA42).instruction_type(),
        Ok(InstructionType::RND)
    );
    assert_eq!(
        Instruction::new(0xDAB5).instruction_type(),
        Ok(InstructionType::DRW)
    );
    assert_eq!(
        Instruction::new(0xEA9E).instruction_type(),
        Ok(InstructionType::SKPK)
    );
    assert_eq!(
        Instruction::new(0xEAA1).instruction_type(),
        Ok(InstructionType::SKPNK)
    );
    assert_eq!(
        Instruction::new(0xFA07).instruction_type(),
        Ok(InstructionType::LDD)
    );
    assert_eq!(
        Instruction::new(0xFA0A).instruction_type(),
        Ok(InstructionType::LDK)
    );
    assert_eq!(
        Instruction::new(0xFA15).instruction_type(),
        Ok(InstructionType::LDDR)
    );
    assert_eq!(
        Instruction::new(0xFA18).instruction_type(),
        Ok(InstructionType::LDSR)
    );
    assert_eq!(
        Instruction::new(0xFA1E).instruction_type(),
        Ok(InstructionType::ADDI)
    );
    assert_eq!(
        Instruction::new(0xFA29).instruction_type(),
        Ok(InstructionType::LDSPR)
    );
    assert_eq!(
        Instruction::new(0xFA33).instruction_type(),
        Ok(InstructionType::LDBR)
    );
    assert_eq!(
        Instruction::new(0xFA55).instruction_type(),
        Ok(InstructionType::LDIR)
    );
    assert_eq!(
        Instruction::new(0xFA65).instruction_type(),
        Ok(InstructionType::LDMR)
    );
}

#[test]
fn test_undefined_words_are_rejected() {
    for word in [0x5AB1u16, 0x8AB8, 0x8ABF, 0x9AB4, 0xE000, 0xEAFF, 0xFA00, 0xFA66] {
        assert_eq!(
            Instruction::new(word).instruction_type(),
            Err(EngineError::UnknownInstructionType),
            "word {word:04X} should not decode"
        );
    }
}
