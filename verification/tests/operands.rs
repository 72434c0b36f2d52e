use instruction_decoding_8086::instructions::operands::{ImmediateValue, Operand};
use instruction_decoding_8086::memory::{ByteMemory, EffectiveAddress, Memory};
use instruction_decoding_8086::register::Register;
use instruction_decoding_8086::segment_register::SegmentRegister;
use instruction_decoding_8086::{EngineError, MemoryManager, RegisterManager, Store};

fn word(value: i16) -> ImmediateValue {
    ImmediateValue::SignedWord(value)
}

fn byte(value: i8) -> ImmediateValue {
    ImmediateValue::SignedByte(value)
}

fn ax(store: &Store) -> u16 {
    store.register_store().read_word_from_register(Register::Ax)
}

#[test]
fn accumulator_reads_and_writes() {
    let mut store = Store::new();
    assert_eq!(Operand::AccumulatorWide.write_value(word(0x1234), true, &mut store), Ok(()));
    assert_eq!(ax(&store), 0x1234);
    assert_eq!(
        Operand::AccumulatorWide.to_immediate_value(true, &store),
        Ok((word(0x1234), false))
    );
    assert_eq!(Operand::Accumulator.to_immediate_value(false, &store), Ok((byte(0x34), false)));
    assert_eq!(Operand::Accumulator.write_value(byte(-1), false, &mut store), Ok(()));
    assert_eq!(ax(&store), 0x12FF);
}

#[test]
fn word_to_al_is_refused() {
    let mut store = Store::new();
    store.register_store_mut().write_word_to_register(Register::Ax, 0x1234);
    assert_eq!(
        Operand::Accumulator.write_value(word(7), false, &mut store),
        Err(EngineError::IllegalOperand)
    );
    assert_eq!(
        Operand::Accumulator.write_value(word(7), true, &mut store),
        Err(EngineError::IllegalOperand)
    );
    assert_eq!(
        Operand::Register(Register::Al).write_value(word(7), false, &mut store),
        Err(EngineError::IllegalOperand)
    );
    assert_eq!(
        Operand::Register(Register::Al).write_value(word(7), true, &mut store),
        Err(EngineError::IllegalOperand)
    );
    assert_eq!(ax(&store), 0x1234);
}

#[test]
fn byte_to_ax_goes_to_al_and_leaves_ah() {
    let mut store = Store::new();
    store.register_store_mut().write_word_to_register(Register::Ax, 0x1234);
    assert_eq!(Operand::AccumulatorWide.write_value(byte(0x56), true, &mut store), Ok(()));
    assert_eq!(ax(&store), 0x1256);
}

#[test]
fn byte_to_a_word_register_is_zero_extended() {
    let mut store = Store::new();
    store.register_store_mut().write_word_to_register(Register::Bx, 0x1234);
    assert_eq!(Operand::Register(Register::Bx).write_value(byte(-2), true, &mut store), Ok(()));
    assert_eq!(store.register_store().read_word_from_register(Register::Bx), 0x00FE);
}

#[test]
fn byte_register_write_leaves_the_sibling() {
    let mut store = Store::new();
    store.register_store_mut().write_word_to_register(Register::Cx, 0x1234);
    assert_eq!(Operand::Register(Register::Cl).write_value(byte(1), false, &mut store), Ok(()));
    assert_eq!(store.register_store().read_word_from_register(Register::Cx), 0x1201);
    assert_eq!(Operand::Register(Register::Ch).write_value(byte(2), false, &mut store), Ok(()));
    assert_eq!(store.register_store().read_word_from_register(Register::Cx), 0x0201);
}

#[test]
fn register_width_must_match_the_operation() {
    let mut store = Store::new();
    assert_eq!(
        Operand::Register(Register::Bx).to_immediate_value(false, &store),
        Err(EngineError::IllegalOperand)
    );
    assert_eq!(
        Operand::Register(Register::Bl).to_immediate_value(true, &store),
        Err(EngineError::IllegalOperand)
    );
    assert_eq!(
        Operand::Register(Register::Bx).write_value(byte(1), false, &mut store),
        Err(EngineError::IllegalOperand)
    );
    assert_eq!(
        Operand::Register(Register::Bl).write_value(byte(1), true, &mut store),
        Err(EngineError::IllegalOperand)
    );
    assert_eq!(*store.register_store().get_memory(), [0; 16]);
}

#[test]
fn immediates_read_as_they_are() {
    let mut store = Store::new();
    assert_eq!(Operand::Immediate(word(-5)).to_immediate_value(true, &store), Ok((word(-5), false)));
    assert_eq!(Operand::Immediate(byte(-5)).to_immediate_value(false, &store), Ok((byte(-5), false)));
    assert_eq!(
        Operand::Immediate(byte(-5)).to_immediate_value(true, &store),
        Err(EngineError::IllegalOperand)
    );
    assert_eq!(
        Operand::Immediate(word(1)).write_value(word(2), true, &mut store),
        Err(EngineError::IllegalOperand)
    );
    assert_eq!(
        Operand::Immediate(byte(1)).write_value(byte(2), false, &mut store),
        Err(EngineError::IllegalOperand)
    );
}

#[test]
fn memory_operand_reads_and_writes() {
    let mut store = Store::new();
    store.register_store_mut().write_word_to_register(Register::Bx, 1000);
    store.register_store_mut().write_word_to_register(Register::Si, 3);
    let address = EffectiveAddress::RegisterSumPlusByte(Register::Bx, Register::Si, -1);
    let operand = Operand::Memory(address);

    assert_eq!(operand.write_value(word(-2), true, &mut store), Ok(()));
    assert_eq!(store.memory_store().read_byte(1002), 0xFF);
    assert_eq!(store.memory_store().read_byte(1003), 0xFE);
    assert_eq!(operand.to_immediate_value(true, &store), Ok((word(-2), false)));
    assert_eq!(operand.to_immediate_value(false, &store), Ok((byte(-1), false)));
    assert!(!operand.is_unaligned(true, &store));

    assert_eq!(operand.write_value(byte(5), false, &mut store), Ok(()));
    assert_eq!(store.memory_store().read_byte(1002), 5);
    assert_eq!(store.memory_store().read_byte(1003), 0xFE);

    // A byte written as a word is sign-extended.
    assert_eq!(operand.write_value(byte(-3), true, &mut store), Ok(()));
    assert_eq!(store.memory_store().read_word(1002), 0xFFFD);

    // A word cannot go to a byte of memory.
    assert_eq!(operand.write_value(word(9), false, &mut store), Err(EngineError::IllegalOperand));
    assert_eq!(store.memory_store().read_word(1002), 0xFFFD);
}

#[test]
fn word_access_at_an_odd_address_is_penalised() {
    let mut store = Store::new();
    let odd = Operand::Memory(EffectiveAddress::DirectAddress(1001));
    let even = Operand::Memory(EffectiveAddress::DirectAddress(1000));
    assert_eq!(odd.to_immediate_value(true, &store), Ok((word(0), true)));
    assert_eq!(odd.to_immediate_value(false, &store), Ok((byte(0), false)));
    assert_eq!(even.to_immediate_value(true, &store), Ok((word(0), false)));
    assert!(odd.is_unaligned(true, &store));
    assert!(!odd.is_unaligned(false, &store));
    assert!(!Operand::Register(Register::Bx).is_unaligned(true, &store));
    assert_eq!(
        store.write_to_effective_memory_address(EffectiveAddress::DirectAddress(1001), true, word(0x0102)),
        Ok(())
    );
    assert_eq!(store.memory_store().read_byte(1001), 1);
    assert_eq!(store.memory_store().read_byte(1002), 2);
}

#[test]
fn segment_register_operand() {
    let mut store = Store::new();
    let operand = Operand::SegmentRegister(SegmentRegister::Ds);
    assert_eq!(operand.write_value(word(-2), true, &mut store), Ok(()));
    assert_eq!(store.segment_register_store().read_value(SegmentRegister::Ds), 0xFFFE);
    assert_eq!(operand.to_immediate_value(true, &store), Ok((word(-2), false)));
    assert_eq!(operand.to_immediate_value(false, &store), Ok((byte(-1), false)));
    assert_eq!(operand.write_value(byte(-1), true, &mut store), Ok(()));
    assert_eq!(store.segment_register_store().read_value(SegmentRegister::Ds), 0xFFFF);
    assert_eq!(store.segment_register_store().read_value(SegmentRegister::Es), 0);
}

#[test]
fn effective_addresses_resolve_modulo_two_to_the_sixteenth() {
    let memory = MemoryManager::new();
    let mut registers = RegisterManager::new();
    registers.write_word_to_register(Register::Bx, 0xFFFF);
    registers.write_word_to_register(Register::Si, 2);
    registers.write_word_to_register(Register::Bp, 100);
    registers.write_word_to_register(Register::Di, 0x8000);

    let resolve = |address| memory.effective_address_to_address(address, &registers);

    assert_eq!(resolve(EffectiveAddress::Register(Register::Bx)), 0xFFFF);
    assert_eq!(resolve(EffectiveAddress::RegisterSum(Register::Bx, Register::Si)), 1);
    assert_eq!(resolve(EffectiveAddress::RegisterPlusByte(Register::Bp, 2)), 102);
    assert_eq!(resolve(EffectiveAddress::RegisterPlusByte(Register::Bp, -101)), 0xFFFF);
    assert_eq!(resolve(EffectiveAddress::RegisterPlusWord(Register::Bp, -32768)), 32868);
    assert_eq!(
        resolve(EffectiveAddress::RegisterSumPlusByte(Register::Bp, Register::Si, -2)),
        100
    );
    assert_eq!(
        resolve(EffectiveAddress::RegisterSumPlusWord(Register::Di, Register::Di, -1)),
        0xFFFF
    );
    assert_eq!(resolve(EffectiveAddress::DirectAddress(0xFFFF)), 0xFFFF);
    assert_eq!(
        memory.read_memory_from_effective_address(
            EffectiveAddress::DirectAddress(5),
            true,
            &registers
        ),
        word(0)
    );
}

#[test]
fn effective_address_cycles() {
    let cycles = |address: EffectiveAddress| address.num_cycles();
    assert_eq!(cycles(EffectiveAddress::DirectAddress(5)), 6);
    assert_eq!(cycles(EffectiveAddress::Register(Register::Bx)), 5);
    assert_eq!(cycles(EffectiveAddress::RegisterPlusByte(Register::Bp, 1)), 9);
    assert_eq!(cycles(EffectiveAddress::RegisterPlusWord(Register::Bp, 1)), 9);
    assert_eq!(cycles(EffectiveAddress::RegisterSum(Register::Bx, Register::Si)), 7);
    assert_eq!(cycles(EffectiveAddress::RegisterSum(Register::Bp, Register::Di)), 7);
    assert_eq!(cycles(EffectiveAddress::RegisterSum(Register::Bp, Register::Si)), 8);
    assert_eq!(cycles(EffectiveAddress::RegisterSum(Register::Bx, Register::Di)), 8);
    assert_eq!(
        cycles(EffectiveAddress::RegisterSumPlusByte(Register::Bx, Register::Si, 1)),
        11
    );
    assert_eq!(
        cycles(EffectiveAddress::RegisterSumPlusWord(Register::Bp, Register::Di, 1)),
        11
    );
    assert_eq!(
        cycles(EffectiveAddress::RegisterSumPlusByte(Register::Bp, Register::Si, 1)),
        12
    );
    assert_eq!(
        cycles(EffectiveAddress::RegisterSumPlusWord(Register::Bx, Register::Di, 1)),
        12
    );
}
