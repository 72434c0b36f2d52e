use instruction_decoding_8086::instructions::operands::ImmediateValue;
use instruction_decoding_8086::memory::Memory;
use instruction_decoding_8086::mode::InstructionMode;
use instruction_decoding_8086::register::Register;
use instruction_decoding_8086::segment_register::SegmentRegister;
use instruction_decoding_8086::{
    FlagRegisterManager, MemoryManager, RegisterManager, SegmentRegisterManager,
};

#[test]
fn selectors_convert_from_bytes() {
    assert_eq!(Register::from(0b0111), Register::Bx);
    assert_eq!(Register::from(0b1111_0000), Register::Al);
    assert_eq!(SegmentRegister::from(0b01), SegmentRegister::Cs);
    assert_eq!(SegmentRegister::from(0b111), SegmentRegister::Ds);
    assert_eq!(InstructionMode::from(0b1100_0101), InstructionMode::Register);
    assert_eq!(InstructionMode::from(0b0100_0101), InstructionMode::MemoryPlusByte);
    let register: Register = 0b1001.into();
    assert_eq!(register, Register::Sp);
}

#[test]
fn immediates_convert_both_ways() {
    assert_eq!(ImmediateValue::from(-3i16), ImmediateValue::SignedWord(-3));
    assert_eq!(ImmediateValue::from(-3i8), ImmediateValue::SignedByte(-3));
    assert_eq!(i16::from(ImmediateValue::SignedByte(-3)), -3);
    assert_eq!(i16::from(ImmediateValue::SignedWord(-300)), -300);
    assert_eq!(u16::from(ImmediateValue::SignedByte(-3)), 0xFFFD);
    assert_eq!(u16::from(ImmediateValue::SignedWord(-300)), 0xFED4);
    let pattern: u16 = ImmediateValue::SignedWord(7).into();
    assert_eq!(pattern, 7);
}

#[test]
fn default_stores_are_zero() {
    assert_eq!(*RegisterManager::default().get_memory(), [0; 16]);
    assert_eq!(*SegmentRegisterManager::default().get_memory(), [0; 8]);
    assert_eq!(*FlagRegisterManager::default().get_memory(), [false; 16]);
    assert!(MemoryManager::default().get_memory().iter().all(|byte| *byte == 0));
}
