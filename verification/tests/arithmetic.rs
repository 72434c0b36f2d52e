use instruction_decoding_8086::flag_register::{FlagRegister, FlagRegisterManager};
use instruction_decoding_8086::instructions::operands::{
    compute_borrow_on_subtraction, compute_carry_on_addition, ImmediateValue,
};

fn word(value: i16) -> ImmediateValue {
    ImmediateValue::SignedWord(value)
}

fn byte(value: i8) -> ImmediateValue {
    ImmediateValue::SignedByte(value)
}

/// Carry, auxiliary carry, overflow, zero, sign and value of a sum,
/// computed the long way on 32-bit integers.
fn add_oracle(a: i16, b: i16) -> (bool, bool, bool, bool, bool, i16) {
    let ua = a as u16 as u32;
    let ub = b as u16 as u32;
    let value = (ua + ub) as u16 as i16;
    let exact = a as i32 + b as i32;
    (
        ua + ub > 0xFFFF,
        (ua & 0xF) + (ub & 0xF) > 0xF,
        exact != value as i32,
        value == 0,
        value < 0,
        value,
    )
}

fn sub_oracle(a: i16, b: i16) -> (bool, bool, bool, bool, bool, i16) {
    let ua = a as u16 as u32;
    let ub = b as u16 as u32;
    let value = ua.wrapping_sub(ub) as u16 as i16;
    let exact = a as i32 - b as i32;
    (
        ua < ub,
        (ua & 0xF) < (ub & 0xF),
        exact != value as i32,
        value == 0,
        value < 0,
        value,
    )
}

const SAMPLES: [i16; 24] = [
    0, 1, 2, 7, 8, 9, 15, 16, 17, 127, 128, 255, 256, 1000, 4095, 4096, 30000, 32767, -1, -2, -8,
    -16, -25536, -32768,
];

#[test]
fn addition_matches_the_long_way_on_samples() {
    for a in SAMPLES {
        for b in SAMPLES {
            let result = word(a).add(word(b));
            let (carry, auxiliary, overflow, zero, sign, value) = add_oracle(a, b);
            assert_eq!(result.value(), word(value), "{a} + {b}");
            assert_eq!(result.carry, carry, "carry of {a} + {b}");
            assert_eq!(result.auxiliary_carry, auxiliary, "auxiliary carry of {a} + {b}");
            assert_eq!(result.overflow, overflow, "overflow of {a} + {b}");
            assert_eq!(result.zero, zero, "zero of {a} + {b}");
            assert_eq!(result.sign, sign, "sign of {a} + {b}");
        }
    }
}

#[test]
fn subtraction_matches_the_long_way_on_samples() {
    for a in SAMPLES {
        for b in SAMPLES {
            let result = word(a).sub(word(b));
            let (borrow, auxiliary, overflow, zero, sign, value) = sub_oracle(a, b);
            assert_eq!(result.value(), word(value), "{a} - {b}");
            assert_eq!(result.carry, borrow, "borrow of {a} - {b}");
            assert_eq!(result.auxiliary_carry, auxiliary, "auxiliary borrow of {a} - {b}");
            assert_eq!(result.overflow, overflow, "overflow of {a} - {b}");
            assert_eq!(result.zero, zero, "zero of {a} - {b}");
            assert_eq!(result.sign, sign, "sign of {a} - {b}");
        }
    }
}

#[test]
fn byte_operands_are_sign_extended() {
    let result = byte(-1).add(byte(1));
    assert_eq!(result.value(), word(0));
    assert!(result.zero);
    assert!(result.carry);
    assert!(result.auxiliary_carry);
    assert!(!result.overflow);

    let result = byte(-128).sub(word(1));
    assert_eq!(result.value(), word(-129));
    assert!(result.sign);
    assert!(!result.carry);
}

#[test]
fn addition_at_the_edges() {
    let result = word(32767).add(word(1));
    assert_eq!(result.value(), word(-32768));
    assert!(result.overflow);
    assert!(result.sign);
    assert!(!result.carry);
    assert!(result.auxiliary_carry);

    let result = word(-32768).add(word(-32768));
    assert_eq!(result.value(), word(0));
    assert!(result.overflow);
    assert!(result.zero);
    assert!(result.carry);
    assert!(!result.auxiliary_carry);
}

#[test]
fn subtraction_at_the_edges() {
    let result = word(-32768).sub(word(1));
    assert_eq!(result.value(), word(32767));
    assert!(result.overflow);
    assert!(!result.sign);
    assert!(!result.carry);
    assert!(result.auxiliary_carry);

    let result = word(0).sub(word(1));
    assert_eq!(result.value(), word(-1));
    assert!(result.carry);
    assert!(result.auxiliary_carry);
    assert!(!result.overflow);
}

#[test]
fn carries_read_off_the_bits() {
    assert_eq!(compute_carry_on_addition(-1, 1, 0), (true, true));
    assert_eq!(compute_carry_on_addition(8, 8, 16), (false, true));
    assert_eq!(compute_carry_on_addition(1, 2, 3), (false, false));
    assert_eq!(compute_carry_on_addition(-32768, -32768, 0), (true, false));
    assert_eq!(compute_borrow_on_subtraction(0, 1, -1), (true, true));
    assert_eq!(compute_borrow_on_subtraction(16, 8, 8), (false, true));
    assert_eq!(compute_borrow_on_subtraction(3, 2, 1), (false, false));
    assert_eq!(compute_borrow_on_subtraction(16, 32, -16), (true, false));
}

#[test]
fn conversions_of_immediates() {
    assert_eq!(byte(-2).to_signed_word(), -2);
    assert_eq!(byte(-2).to_word(), 0xFFFE);
    assert_eq!(word(-2).to_word(), 0xFFFE);
    assert_eq!(byte(-2).to_byte(), Some(0xFE));
    assert_eq!(byte(-2).to_signed_byte(), Some(-2));
    assert_eq!(word(5).to_byte(), None);
    assert_eq!(word(5).to_signed_byte(), None);
}

#[test]
fn parity_counts_the_low_byte_only() {
    let mut flags = FlagRegisterManager::new();

    // 0x0103: the low byte 0x03 has two one-bits, the whole word three.
    flags.set_flags_on_op(word(0x0100).add(word(0x0003)));
    assert!(flags.get_flag(FlagRegister::Parity));

    // 0x0301: the low byte 0x01 has one one-bit, the whole word three.
    flags.set_flags_on_op(word(0x0300).add(word(0x0001)));
    assert!(!flags.get_flag(FlagRegister::Parity));

    // 0x00FF: eight one-bits.
    flags.set_flags_on_op(word(0x00F0).add(word(0x000F)));
    assert!(flags.get_flag(FlagRegister::Parity));

    // 0: no one-bits.
    flags.set_flags_on_op(word(5).sub(word(5)));
    assert!(flags.get_flag(FlagRegister::Parity));
    assert!(flags.get_flag(FlagRegister::Zero));
}

#[test]
fn arithmetic_replaces_six_flags_and_keeps_three() {
    let mut flags = FlagRegisterManager::new();
    flags.set_flag(FlagRegister::Trap);
    flags.set_flag(FlagRegister::Direction);
    flags.set_flag(FlagRegister::Carry);
    flags.set_flag(FlagRegister::Sign);

    flags.set_flags_on_op(word(1).add(word(1)));

    assert!(flags.get_flag(FlagRegister::Trap));
    assert!(flags.get_flag(FlagRegister::Direction));
    assert!(!flags.get_flag(FlagRegister::Interrupt));
    assert!(!flags.get_flag(FlagRegister::Carry));
    assert!(!flags.get_flag(FlagRegister::Sign));
    assert!(!flags.get_flag(FlagRegister::Zero));
    assert!(!flags.get_flag(FlagRegister::Overflow));
    assert!(!flags.get_flag(FlagRegister::AuxiliaryCarry));
    assert!(!flags.get_flag(FlagRegister::Parity));

    flags.unset_flag(FlagRegister::Trap);
    assert!(!flags.get_flag(FlagRegister::Trap));
}

#[test]
fn flag_dump_is_in_order() {
    let mut flags = FlagRegisterManager::new();
    flags.set_flag(FlagRegister::Zero);
    flags.set_flag(FlagRegister::Overflow);
    assert_eq!(
        flags.flag_register_memory_map(),
        vec![
            ("carry", false),
            ("parity", false),
            ("auxiliaryCarry", false),
            ("zero", true),
            ("sign", false),
            ("trap", false),
            ("interrupt", false),
            ("direction", false),
            ("overflow", true),
        ]
    );
    assert_eq!(FlagRegister::Carry.to_memory_address(), 0);
    assert_eq!(FlagRegister::Overflow.to_memory_address(), 11);
    assert_eq!(FlagRegister::Zero.abbreviation(), "ZF");
}
