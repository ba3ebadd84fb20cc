use gb_core::instruction::{Instruction, JumpTest, Target};

#[test]
fn decode_base_table_entries() {
    assert_eq!(
        Instruction::from_byte_non_prefixed(0x00),
        Some(Instruction::Nop)
    );
    assert_eq!(
        Instruction::from_byte_non_prefixed(0x03),
        Some(Instruction::Inc(Target::BC))
    );
    assert_eq!(
        Instruction::from_byte_non_prefixed(0x31),
        Some(Instruction::Load(Target::SP))
    );
    assert_eq!(
        Instruction::from_byte_non_prefixed(0x76),
        Some(Instruction::Halt)
    );
    assert_eq!(
        Instruction::from_byte_non_prefixed(0x80),
        Some(Instruction::Add(Target::B))
    );
    assert_eq!(
        Instruction::from_byte_non_prefixed(0x86),
        Some(Instruction::AddHl)
    );
    assert_eq!(
        Instruction::from_byte_non_prefixed(0xC2),
        Some(Instruction::Jump(JumpTest::NotZero))
    );
    assert_eq!(
        Instruction::from_byte_non_prefixed(0xE9),
        Some(Instruction::JumpHl)
    );
    assert_eq!(
        Instruction::from_byte_non_prefixed(0xFF),
        Some(Instruction::Restart(0x38))
    );
}

#[test]
fn decode_extended_table_entries() {
    assert_eq!(
        Instruction::from_byte_prefixed(0x00),
        Some(Instruction::RotateLeftCircular(Target::B))
    );
    assert_eq!(
        Instruction::from_byte_prefixed(0x0F),
        Some(Instruction::RotateRightCircular(Target::A))
    );
    assert_eq!(
        Instruction::from_byte_prefixed(0x17),
        Some(Instruction::RotateLeft(Target::A))
    );
    assert_eq!(
        Instruction::from_byte_prefixed(0x1D),
        Some(Instruction::RotateRight(Target::L))
    );
}

#[test]
fn decode_prefix_byte_consults_the_selected_table() {
    // The prefix sentinel itself decodes through the base table when not
    // prefixed, and through the extended table when prefixed; it is mapped
    // in neither.
    assert_eq!(
        Instruction::from_byte(0xCB, false),
        Instruction::from_byte_non_prefixed(0xCB)
    );
    assert_eq!(
        Instruction::from_byte(0xCB, true),
        Instruction::from_byte_prefixed(0xCB)
    );
    assert_eq!(Instruction::from_byte_non_prefixed(0xCB), None);
    assert_eq!(Instruction::from_byte_prefixed(0xCB), None);
}

#[test]
fn decode_unmapped_bytes_yield_no_instruction() {
    assert_eq!(Instruction::from_byte_non_prefixed(0xFD), None);
    assert_eq!(Instruction::from_byte(0xFD, false), None);
    assert_eq!(Instruction::from_byte_prefixed(0x20), None);
    // 0x06 is mapped in the base table but not in the extended one.
    assert_eq!(Instruction::from_byte_prefixed(0x06), None);
    assert_eq!(
        Instruction::from_byte(0x06, false),
        Some(Instruction::LoadN8(Target::B))
    );
}
