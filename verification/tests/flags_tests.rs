use dmg_cpu::flags::FlagsRegister;

fn flags(zero: bool, subtract: bool, half_carry: bool, carry: bool) -> FlagsRegister {
    FlagsRegister { zero, subtract, half_carry, carry }
}

#[test]
fn round_trip_all_sixteen_combinations() {
    for bits in 0u8..16 {
        let f = flags(bits & 8 != 0, bits & 4 != 0, bits & 2 != 0, bits & 1 != 0);
        assert_eq!(FlagsRegister::from_byte(f.to_byte()), f);
    }
}

#[test]
fn to_byte_exact_positions() {
    assert_eq!(flags(true, false, false, false).to_byte(), 0x80);
    assert_eq!(flags(false, true, false, false).to_byte(), 0x40);
    assert_eq!(flags(false, false, true, false).to_byte(), 0x20);
    assert_eq!(flags(false, false, false, true).to_byte(), 0x10);
    assert_eq!(flags(true, true, true, true).to_byte(), 0xF0);
    assert_eq!(flags(false, false, false, false).to_byte(), 0x00);
    assert_eq!(flags(true, false, true, false).to_byte(), 0xA0);
}

#[test]
fn to_byte_low_nibble_always_zero() {
    for bits in 0u8..16 {
        let f = flags(bits & 8 != 0, bits & 4 != 0, bits & 2 != 0, bits & 1 != 0);
        assert_eq!(f.to_byte() & 0x0F, 0);
    }
}

#[test]
fn from_byte_ignores_unused_bits() {
    assert_eq!(FlagsRegister::from_byte(0xFF), flags(true, true, true, true));
    assert_eq!(FlagsRegister::from_byte(0x0F), flags(false, false, false, false));
    assert_eq!(FlagsRegister::from_byte(0xB5), flags(true, false, true, true));
}

#[test]
fn from_byte_tests_each_bit_alone() {
    assert_eq!(FlagsRegister::from_byte(0x80), flags(true, false, false, false));
    assert_eq!(FlagsRegister::from_byte(0x40), flags(false, true, false, false));
    assert_eq!(FlagsRegister::from_byte(0x20), flags(false, false, true, false));
    assert_eq!(FlagsRegister::from_byte(0x10), flags(false, false, false, true));
}
