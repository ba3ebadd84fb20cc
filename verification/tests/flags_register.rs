use gb_core::flags::FlagsRegister;

#[test]
fn test_flags_register_to_u8() {
    let flags = FlagsRegister {
        zero: true,
        subtract: false,
        half_carry: true,
        carry: false,
    };
    let byte: u8 = flags.to_byte();
    assert_eq!(byte, 0b10100000); // Expected binary representation
}

#[test]
fn test_u8_to_flags_register() {
    let byte: u8 = 0b10100000;
    let flags = FlagsRegister::from_byte(byte);

    assert_eq!(
        flags,
        FlagsRegister {
            zero: true,
            subtract: false,
            half_carry: true,
            carry: false,
        }
    );
}

#[test]
fn test_round_trip_conversion() {
    let original_flags = FlagsRegister {
        zero: true,
        subtract: true,
        half_carry: false,
        carry: true,
    };
    let byte: u8 = original_flags.to_byte();
    let converted_flags = FlagsRegister::from_byte(byte);

    assert_eq!(original_flags, converted_flags);
}

#[test]
fn flags_round_trip_every_byte() {
    // One decode/encode round trip settles the flags for every byte value.
    for byte in 0..=255u8 {
        let decoded = FlagsRegister::from_byte(byte);
        let re_decoded = FlagsRegister::from_byte(decoded.to_byte());
        assert_eq!(re_decoded, decoded);
    }
}

#[test]
fn flags_encode_keeps_upper_nibble_only() {
    // Encoding the decoded flags preserves bits 7-4 and clears bits 3-0.
    for byte in 0..=255u8 {
        assert_eq!(FlagsRegister::from_byte(byte).to_byte(), byte & 0xF0);
    }
}

#[test]
fn flags_default_is_all_clear() {
    let flags = FlagsRegister::default();
    assert!(!flags.zero);
    assert!(!flags.subtract);
    assert!(!flags.half_carry);
    assert!(!flags.carry);
    assert_eq!(flags.to_byte(), 0);
}
