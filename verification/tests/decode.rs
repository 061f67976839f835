use chip8::{decode, Instruction};

#[test]
fn decode_fixed_words() {
    assert_eq!(decode(0x00E0), Some(Instruction::ClearScreen));
    assert_eq!(decode(0x00EE), Some(Instruction::Return));
}

#[test]
fn decode_address_instructions() {
    assert_eq!(decode(0x1000), Some(Instruction::Jump { addr: 0x000 }));
    assert_eq!(decode(0x19AB), Some(Instruction::Jump { addr: 0x9AB }));
    assert_eq!(decode(0x2FFF), Some(Instruction::Call { addr: 0xFFF }));
    assert_eq!(decode(0xA123), Some(Instruction::LoadIndex { addr: 0x123 }));
    assert_eq!(decode(0xB00F), Some(Instruction::JumpOffset { addr: 0x00F }));
}

#[test]
fn decode_immediate_instructions() {
    assert_eq!(decode(0x3B78), Some(Instruction::SkipIfEqual { x: 0xB, value: 0x78 }));
    assert_eq!(decode(0x4576), Some(Instruction::SkipIfNotEqual { x: 0x5, value: 0x76 }));
    assert_eq!(decode(0x6A57), Some(Instruction::LoadImmediate { x: 0xA, value: 0x57 }));
    assert_eq!(decode(0x7478), Some(Instruction::AddImmediate { x: 0x4, value: 0x78 }));
    assert_eq!(decode(0xC30F), Some(Instruction::Random { x: 0x3, value: 0x0F }));
}

#[test]
fn decode_register_pair_instructions() {
    assert_eq!(decode(0x5B50), Some(Instruction::SkipIfRegistersEqual { x: 0xB, y: 0x5 }));
    assert_eq!(decode(0x9120), Some(Instruction::SkipIfRegistersNotEqual { x: 0x1, y: 0x2 }));
    assert_eq!(decode(0x8780), Some(Instruction::Assign { x: 7, y: 8 }));
    assert_eq!(decode(0x8781), Some(Instruction::Or { x: 7, y: 8 }));
    assert_eq!(decode(0x8782), Some(Instruction::And { x: 7, y: 8 }));
    assert_eq!(decode(0x8783), Some(Instruction::Xor { x: 7, y: 8 }));
    assert_eq!(decode(0x8784), Some(Instruction::AddCarry { x: 7, y: 8 }));
    assert_eq!(decode(0x8785), Some(Instruction::SubBorrow { x: 7, y: 8 }));
    assert_eq!(decode(0x8846), Some(Instruction::ShiftRight { x: 8, y: 4 }));
    assert_eq!(decode(0x8787), Some(Instruction::ReverseSub { x: 7, y: 8 }));
    assert_eq!(decode(0x884E), Some(Instruction::ShiftLeft { x: 8, y: 4 }));
    assert_eq!(decode(0xD125), Some(Instruction::Draw { x: 1, y: 2, rows: 5 }));
    assert_eq!(decode(0xDFF0), Some(Instruction::Draw { x: 15, y: 15, rows: 0 }));
}

#[test]
fn decode_key_and_misc_instructions() {
    assert_eq!(decode(0xE09E), Some(Instruction::SkipIfKey { x: 0 }));
    assert_eq!(decode(0xE0A1), Some(Instruction::SkipIfNotKey { x: 0 }));
    assert_eq!(decode(0xEFA1), Some(Instruction::SkipIfNotKey { x: 15 }));
    assert_eq!(decode(0xF307), Some(Instruction::LoadDelay { x: 3 }));
    assert_eq!(decode(0xF30A), Some(Instruction::WaitKey { x: 3 }));
    assert_eq!(decode(0xF315), Some(Instruction::StoreDelay { x: 3 }));
    assert_eq!(decode(0xF318), Some(Instruction::StoreSound { x: 3 }));
    assert_eq!(decode(0xF31E), Some(Instruction::AddIndex { x: 3 }));
    assert_eq!(decode(0xF329), Some(Instruction::FontAddress { x: 3 }));
    assert_eq!(decode(0xF333), Some(Instruction::StoreBcd { x: 3 }));
    assert_eq!(decode(0xF355), Some(Instruction::StoreRegisters { x: 3 }));
    assert_eq!(decode(0xFF65), Some(Instruction::LoadRegisters { x: 15 }));
}

#[test]
fn decode_refuses_words_of_no_instruction() {
    assert_eq!(decode(0x0000), None);
    assert_eq!(decode(0x00E1), None);
    assert_eq!(decode(0x0123), None);
    assert_eq!(decode(0x00EF), None);
    assert_eq!(decode(0x0FFF), None);
    assert_eq!(decode(0x5121), None);
    assert_eq!(decode(0x5FFF), None);
    assert_eq!(decode(0x8128), None);
    assert_eq!(decode(0x812D), None);
    assert_eq!(decode(0x812F), None);
    assert_eq!(decode(0x9121), None);
    assert_eq!(decode(0xE000), None);
    assert_eq!(decode(0xE19F), None);
    assert_eq!(decode(0xE1A0), None);
    assert_eq!(decode(0xF000), None);
    assert_eq!(decode(0xF108), None);
    assert_eq!(decode(0xF1FF), None);
}

#[test]
fn decode_knows_exactly_the_words_of_the_instruction_set() {
    let mut known: u32 = 0;
    for word in 0..=0xFFFFu16 {
        if decode(word).is_some() {
            known += 1;
        }
    }
    // 2 fixed words; 10 families that take every operand; 5xy0 and 9xy0;
    // nine 8xyn; two Exnn; nine Fxnn.
    let expected: u32 = 2 + 10 * 4096 + 2 * 256 + 9 * 256 + 2 * 16 + 9 * 16;
    assert_eq!(known, expected);
}
