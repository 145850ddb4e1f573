use nes_core::registers::Registers;
use nes_core::status_flags::{CARRY, NEGATIVE, OVERFLOW, ZERO};

#[test]
fn test_update_zero_and_negative_flags() {
    let mut registers = Registers::new();

    registers.set_nz_flags(0x00);
    assert!(registers.get_flag(ZERO));

    registers.set_nz_flags(0x80);
    assert!(registers.get_flag(NEGATIVE));
}

#[test]
fn test_power_on_state() {
    let registers = Registers::new();
    assert_eq!(registers.a, 0);
    assert_eq!(registers.x, 0);
    assert_eq!(registers.y, 0);
    assert_eq!(registers.status, 0x24);
    assert_eq!(registers.stack_pointer, 0xFD);
    assert_eq!(registers.program_counter, 0);
}

#[test]
fn test_reset_state() {
    let mut registers = Registers::new();
    registers.a = 0x55;
    registers.status = 0xFF;
    registers.reset(0x1234);
    assert_eq!(registers.a, 0);
    assert_eq!(registers.status, 0x24);
    assert_eq!(registers.stack_pointer, 0xFD);
    assert_eq!(registers.program_counter, 0x1234);
}

#[test]
fn test_add_to_a_exact_values() {
    // 0x50 + 0x50 overflows the signed range: result 0xA0, V set, C clear.
    let mut registers = Registers::new();
    registers.a = 0x50;
    registers.add_to_a(0x50);
    assert_eq!(registers.a, 0xA0);
    assert!(!registers.get_flag(CARRY));
    assert!(registers.get_flag(OVERFLOW));
    assert!(registers.get_flag(NEGATIVE));
    assert!(!registers.get_flag(ZERO));

    // 0xFF + 0x01 wraps to 0 with carry out and no signed overflow.
    let mut registers = Registers::new();
    registers.a = 0xFF;
    registers.add_to_a(0x01);
    assert_eq!(registers.a, 0x00);
    assert!(registers.get_flag(CARRY));
    assert!(!registers.get_flag(OVERFLOW));
    assert!(registers.get_flag(ZERO));

    // The incoming carry participates in the sum.
    let mut registers = Registers::new();
    registers.a = 0x10;
    registers.set_flag(CARRY, true);
    registers.add_to_a(0x20);
    assert_eq!(registers.a, 0x31);
    assert!(!registers.get_flag(CARRY));
}

#[test]
fn test_addition_flag_full_enumeration() {
    // For every 8-bit a, b and incoming carry: accumulator, Carry and
    // Overflow follow the widened-sum and same-sign rules exactly.
    for a in 0..=255u16 {
        for b in 0..=255u16 {
            for c in 0..=1u16 {
                let mut registers = Registers::new();
                registers.a = a as u8;
                registers.status = if c == 1 { 0x01 } else { 0x00 };
                registers.add_to_a(b as u8);
                let sum = a + b + c;
                let result = (sum & 0xFF) as u8;
                assert_eq!(registers.a, result);
                assert_eq!(registers.get_flag(CARRY), sum > 0xFF);
                assert_eq!(
                    registers.get_flag(OVERFLOW),
                    (b as u8 ^ result) & (a as u8 ^ result) & 0x80 != 0
                );
                assert_eq!(registers.get_flag(ZERO), result == 0);
                assert_eq!(registers.get_flag(NEGATIVE), result & 0x80 != 0);
            }
        }
    }
}
