use c8common::{Address, Datum, GeneralRegister, Instruction, InstructionDecodeError, RawInstruction};

#[test]
fn test_instruction_conversion() {
    for i in 0..=u16::MAX {
        let bytes = i.to_be_bytes();
        let inst = Instruction::try_from_data(RawInstruction::from_raw_bytes(bytes));
        if let Ok(inst) = inst {
            let reconstituted = {
                let returned = inst.to_data();
                let bytes = [returned.first(), returned.second()].map(Datum::inner);
                u16::from_be_bytes(bytes)
            };
            let inst_2 = Instruction::try_from_data(RawInstruction::from_raw_bytes(
                reconstituted.to_be_bytes(),
            ));
            assert_eq!(
                Ok(inst),
                inst_2,
                "test failed on instruction {:04X} (expected {:?}, got {:?})",
                i,
                inst,
                inst_2
            );
        }
    }
}

fn decode(value: u16) -> Result<Instruction, InstructionDecodeError> {
    Instruction::try_from_data(RawInstruction::from_raw_bytes(value.to_be_bytes()))
}

fn encode(instruction: Instruction) -> u16 {
    let raw = instruction.to_data();
    u16::from_be_bytes([raw.first().inner(), raw.second().inner()])
}

#[test]
fn decodes_register_add() {
    assert_eq!(
        decode(0x8124),
        Ok(Instruction::AddReg { x: GeneralRegister::V1, y: GeneralRegister::V2 })
    );
}

#[test]
fn decodes_jump_address() {
    assert_eq!(decode(0x1ABC), Ok(Instruction::Jump(Address::new(0xABC))));
    assert_eq!(decode(0xB123), Ok(Instruction::JumpRelative(Address::new(0x123))));
}

#[test]
fn decodes_immediates() {
    assert_eq!(decode(0x6A7F), Ok(Instruction::LoadRegByte(GeneralRegister::VA, 0x7F)));
    assert_eq!(
        decode(0xD5E3),
        Ok(Instruction::DisplaySprite {
            x: GeneralRegister::V5,
            y: GeneralRegister::VE,
            number_of_bytes: 3
        })
    );
}

#[test]
fn shift_ignores_second_register() {
    assert_eq!(decode(0x83F6), Ok(Instruction::Shr(GeneralRegister::V3)));
    assert_eq!(encode(Instruction::Shr(GeneralRegister::V3)), 0x8306);
}

#[test]
fn rejects_undefined_patterns() {
    for value in [0x00F0u16, 0x5121, 0x8128, 0x9121, 0xE19F, 0xF166, 0x0123] {
        let raw = RawInstruction::from_raw_bytes(value.to_be_bytes());
        assert_eq!(decode(value), Err(InstructionDecodeError::InvalidInstruction(raw)));
        assert_eq!(decode(value).unwrap_err().invalid_data(), Some(raw));
    }
}

#[test]
fn encodes_every_family() {
    assert_eq!(encode(Instruction::Nop), 0x0000);
    assert_eq!(encode(Instruction::ClearScreen), 0x00E0);
    assert_eq!(encode(Instruction::Return), 0x00EE);
    assert_eq!(encode(Instruction::Call(Address::new(0x2F0))), 0x22F0);
    assert_eq!(encode(Instruction::SkipIfEqual(GeneralRegister::V4, 0x9A)), 0x349A);
    assert_eq!(
        encode(Instruction::SubN { x: GeneralRegister::VB, y: GeneralRegister::VC }),
        0x8BC7
    );
    assert_eq!(encode(Instruction::SkipNotPressed(GeneralRegister::V2)), 0xE2A1);
    assert_eq!(encode(Instruction::BCD(GeneralRegister::V9)), 0xF933);
    assert_eq!(encode(Instruction::ReadMultiple(GeneralRegister::VF)), 0xFF65);
}

#[test]
fn raw_nibbles_and_bytes() {
    let mut raw = RawInstruction::from_raw_bytes([0xD1, 0x2F]);
    let nibbles = raw.as_nibbles().map(|n| n.as_half_byte());
    assert_eq!(nibbles, [0xD, 0x1, 0x2, 0xF]);
    assert_eq!(RawInstruction::from_raw_nibbles(raw.as_nibbles()), raw);
    *raw.highest() = Datum(0x42);
    assert_eq!(raw.first(), Datum(0x42));
    assert_eq!(raw.second(), Datum(0x2F));
}
