use chip_8::decode::{address, gsb, hex_nibble, immediate, left_truncate, lsb};
use chip_8::instruction::{decode, Instruction};

#[test]
fn nibbles_are_counted_from_the_low_end() {
    assert_eq!(hex_nibble(0xABCD, 0), 0xD);
    assert_eq!(hex_nibble(0xABCD, 1), 0xC);
    assert_eq!(hex_nibble(0xABCD, 2), 0xB);
    assert_eq!(hex_nibble(0xABCD, 3), 0xA);
}

#[test]
fn nibbles_past_the_word_are_empty() {
    assert_eq!(hex_nibble(0xFFFF, 4), 0);
    assert_eq!(hex_nibble(0xFFFF, 64), 0);
    assert_eq!(hex_nibble(0xFFFF, 255), 0);
}

#[test]
fn every_nibble_is_below_sixteen() {
    for opcode in [0x0000u16, 0x0001, 0x00F0, 0x0F00, 0xF000, 0x1234, 0xFFFF, 0x8000, 0x7FFF] {
        for position in 0u8..8 {
            assert!(hex_nibble(opcode, position) < 16);
        }
    }
}

#[test]
fn low_and_high_nibble() {
    assert_eq!(lsb(0x1234), 0x4);
    assert_eq!(gsb(0x1234), 0x1);
    assert_eq!(lsb(0xFFF0), 0x0);
    assert_eq!(gsb(0x0FFF), 0x0);
    for opcode in [0x0000u16, 0x8014, 0xD015, 0xFFFF] {
        assert_eq!(lsb(opcode), hex_nibble(opcode, 0));
        assert_eq!(gsb(opcode), hex_nibble(opcode, 3));
    }
}

#[test]
fn truncation_shifts_nibbles_out() {
    assert_eq!(left_truncate(0xABCD, 0), 0xABCD);
    assert_eq!(left_truncate(0xABCD, 1), 0x0ABC);
    assert_eq!(left_truncate(0xABCD, 2), 0x00AB);
    assert_eq!(left_truncate(0xABCD, 3), 0x000A);
    assert_eq!(left_truncate(0xABCD, 4), 0);
    assert_eq!(left_truncate(0xABCD, 0xFFFF), 0);
}

#[test]
fn operands_are_the_low_bits() {
    assert_eq!(address(0x1ABC), 0xABC);
    assert_eq!(address(0xFFFF), 0xFFF);
    assert_eq!(address(0xB000), 0x000);
    assert_eq!(immediate(0x6005), 0x05);
    assert_eq!(immediate(0x7AFF), 0xFF);
    assert_eq!(immediate(0xC100), 0x00);
}

#[test]
fn decodes_control_flow() {
    assert_eq!(decode(0x00E0), Instruction::ClearScreen);
    assert_eq!(decode(0x0120), Instruction::ClearScreen);
    assert_eq!(decode(0x00EE), Instruction::Return);
    assert_eq!(decode(0x0001), Instruction::Return);
    assert_eq!(decode(0x1ABC), Instruction::Jump { address: 0xABC });
    assert_eq!(decode(0x2DEF), Instruction::Call { address: 0xDEF });
    assert_eq!(decode(0xB123), Instruction::JumpOffset { address: 0x123 });
}

#[test]
fn decodes_skips() {
    assert_eq!(decode(0x3A42), Instruction::SkipIfEqual { x: 0xA, byte: 0x42 });
    assert_eq!(decode(0x4B43), Instruction::SkipIfNotEqual { x: 0xB, byte: 0x43 });
    assert_eq!(decode(0x5120), Instruction::SkipIfRegistersEqual { x: 1, y: 2 });
    assert_eq!(decode(0x5127), Instruction::SkipIfRegistersEqual { x: 1, y: 2 });
    assert_eq!(decode(0x9340), Instruction::SkipIfRegistersDiffer { x: 3, y: 4 });
    assert_eq!(decode(0xE5A1), Instruction::SkipIfKeyDown { x: 5 });
    assert_eq!(decode(0xE59E), Instruction::SkipIfKeyUp { x: 5 });
}

#[test]
fn decodes_loads() {
    assert_eq!(decode(0x6005), Instruction::Load { x: 0, byte: 5 });
    assert_eq!(decode(0x6103), Instruction::Load { x: 1, byte: 3 });
    assert_eq!(decode(0x7F10), Instruction::AddImmediate { x: 0xF, byte: 0x10 });
    assert_eq!(decode(0xA2F0), Instruction::LoadIndex { address: 0x2F0 });
    assert_eq!(decode(0xC70F), Instruction::Random { x: 7, byte: 0x0F });
    assert_eq!(decode(0xD125), Instruction::Draw { x: 1, y: 2, height: 5 });
}

#[test]
fn decodes_arithmetic() {
    assert_eq!(decode(0x8120), Instruction::Copy { x: 1, y: 2 });
    assert_eq!(decode(0x8121), Instruction::Or { x: 1, y: 2 });
    assert_eq!(decode(0x8122), Instruction::And { x: 1, y: 2 });
    assert_eq!(decode(0x8123), Instruction::Xor { x: 1, y: 2 });
    assert_eq!(decode(0x8014), Instruction::Add { x: 0, y: 1 });
    assert_eq!(decode(0x8125), Instruction::Subtract { x: 1, y: 2 });
    assert_eq!(decode(0x8126), Instruction::ShiftRight { x: 1 });
    assert_eq!(decode(0x8127), Instruction::SubtractFrom { x: 1, y: 2 });
    assert_eq!(decode(0x812E), Instruction::ShiftRight { x: 1 });
}

#[test]
fn decodes_miscellaneous() {
    assert_eq!(decode(0xF333), Instruction::StoreDigits { x: 3 });
    assert_eq!(decode(0xF303), Instruction::StoreDigits { x: 3 });
    assert_eq!(decode(0xF415), Instruction::ReadDelay { x: 4 });
    assert_eq!(decode(0xF407), Instruction::ReadDelay { x: 4 });
    assert_eq!(decode(0xF555), Instruction::StoreRegisters { x: 5 });
    assert_eq!(decode(0xF665), Instruction::LoadRegisters { x: 6 });
    assert_eq!(decode(0xF718), Instruction::SetSound { x: 7 });
    assert_eq!(decode(0xF829), Instruction::GlyphAddress { x: 8 });
    assert_eq!(decode(0xF90A), Instruction::WaitForKey { x: 9 });
    assert_eq!(decode(0xFA1E), Instruction::AddToIndex { x: 0xA });
}

#[test]
fn decodes_unknown_words() {
    for opcode in [
        0x8008u16, 0x8129, 0x812A, 0x812B, 0x812C, 0x812D, 0x812F, 0xE000, 0xE5A2, 0xE59F, 0xF000,
        0xF001, 0xF002, 0xF004, 0xF006, 0xF00B, 0xF00C, 0xF00D, 0xF00F, 0xF005, 0xF025, 0xF075,
        0xF0F5,
    ] {
        assert_eq!(decode(opcode), Instruction::Unknown { opcode });
    }
}

#[test]
fn every_word_decodes_to_a_well_formed_instruction() {
    let mut opcode: u16 = 0;
    loop {
        assert!(decode(opcode).is_well_formed());
        if opcode == 0xFFFF {
            break;
        }
        opcode += 1;
    }
}

#[test]
fn hand_built_instructions_may_be_malformed() {
    assert!(!Instruction::Load { x: 16, byte: 0 }.is_well_formed());
    assert!(!Instruction::Add { x: 0, y: 16 }.is_well_formed());
    assert!(!Instruction::Draw { x: 0, y: 0, height: 16 }.is_well_formed());
    assert!(Instruction::Draw { x: 15, y: 15, height: 15 }.is_well_formed());
    assert!(Instruction::Jump { address: 0xFFFF }.is_well_formed());
    assert!(Instruction::Unknown { opcode: 0xFFFF }.is_well_formed());
}
