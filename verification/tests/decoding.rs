use instruction_decoding_8086::helpers::{bit_match, Bit};
use instruction_decoding_8086::instructions::add::AddInstruction;
use instruction_decoding_8086::instructions::arithmetic::{
    ArithmeticInstruction, ArithmeticInstructionTypes,
};
use instruction_decoding_8086::instructions::compare::CompareInstruction;
use instruction_decoding_8086::instructions::instruction::AnyInstruction;
use instruction_decoding_8086::instructions::jump::JumpInstructions;
use instruction_decoding_8086::instructions::mov::{MovInstruction, MovInstructionTypes};
use instruction_decoding_8086::instructions::operands::{ImmediateValue, Operand};
use instruction_decoding_8086::instructions::subtract::SubtractInstruction;
use instruction_decoding_8086::memory::EffectiveAddress;
use instruction_decoding_8086::mode::InstructionMode;
use instruction_decoding_8086::register::Register;
use instruction_decoding_8086::segment_register::SegmentRegister;
use instruction_decoding_8086::{ByteStream, EngineError, Instructions};

const O: Bit = Bit::Zero;
const I: Bit = Bit::One;
const X: Bit = Bit::Any;

fn decode(bytes: &[u8]) -> Result<Instructions, EngineError> {
    let mut stream = ByteStream::new(bytes.to_vec());
    let decoded = Instructions::decode_one(&mut stream);
    match decoded {
        Ok(Some(instruction)) => {
            assert_eq!(stream.stream_position(), bytes.len(), "{bytes:02x?}");
            Ok(instruction)
        }
        Ok(None) => panic!("nothing decoded from {bytes:02x?}"),
        Err(error) => {
            assert_eq!(stream.stream_position(), 0, "{bytes:02x?}");
            Err(error)
        }
    }
}

fn parts(
    is_wide: bool,
    mode: Option<InstructionMode>,
    destination: Operand,
    source: Operand,
) -> AnyInstruction {
    AnyInstruction { is_wide, mode, source, destination }
}

fn word(value: i16) -> Operand {
    Operand::Immediate(ImmediateValue::SignedWord(value))
}

fn byte(value: i8) -> Operand {
    Operand::Immediate(ImmediateValue::SignedByte(value))
}

fn register(register: Register) -> Operand {
    Operand::Register(register)
}

#[test]
fn bit_patterns() {
    assert!(bit_match(0b1000_1011, [I, O, O, O, I, O, X, X]));
    assert!(bit_match(0b1000_1000, [I, O, O, O, I, O, X, X]));
    assert!(!bit_match(0b1000_1111, [I, O, O, O, I, O, X, X]));
    assert!(!bit_match(0b0000_1011, [I, O, O, O, I, O, X, X]));
    assert!(bit_match(0x00, [X, X, X, X, X, X, X, X]));
    assert!(bit_match(0xFF, [X, X, X, X, X, X, X, X]));
    assert!(bit_match(0x01, [O, O, O, O, O, O, O, I]));
    assert!(!bit_match(0x01, [I, O, O, O, O, O, O, O]));
    assert!(bit_match(0x80, [I, O, O, O, O, O, O, O]));
    for value in 0..=255u8 {
        assert_eq!(bit_match(value, [X, X, I, O, I, X, X, X]), (value >> 3) & 7 == 5);
        assert_eq!(bit_match(value, [O, I, I, I, X, X, X, X]), value >> 4 == 7);
    }
}

#[test]
fn modes() {
    assert_eq!(InstructionMode::from_byte(0b1100_0000), InstructionMode::Register);
    assert_eq!(InstructionMode::from_byte(0b0011_1111), InstructionMode::Memory);
    assert_eq!(InstructionMode::from_byte(0b0100_0000), InstructionMode::MemoryPlusByte);
    assert_eq!(InstructionMode::from_byte(0b1011_1111), InstructionMode::MemoryPlusWord);
}

#[test]
fn opcode_classes() {
    assert_eq!(
        MovInstructionTypes::from_byte(0x89),
        Some(MovInstructionTypes::RegisterOrMemoryToOrFromRegister)
    );
    assert_eq!(
        MovInstructionTypes::from_byte(0x8E),
        Some(MovInstructionTypes::RegisterOrMemoryToOrFromSegmentRegister)
    );
    assert_eq!(
        MovInstructionTypes::from_byte(0xC6),
        Some(MovInstructionTypes::ImmediateToRegisterOrMemory)
    );
    assert_eq!(MovInstructionTypes::from_byte(0xB0), Some(MovInstructionTypes::ImmediateToRegister));
    assert_eq!(MovInstructionTypes::from_byte(0xA1), Some(MovInstructionTypes::MemoryToAccumulator));
    assert_eq!(MovInstructionTypes::from_byte(0xA2), Some(MovInstructionTypes::AccumulatorToMemory));
    assert_eq!(MovInstructionTypes::from_byte(0x00), None);
    assert_eq!(
        ArithmeticInstructionTypes::from_byte(0x01),
        Some(ArithmeticInstructionTypes::RegisterOrMemoryToOrFromRegister)
    );
    assert_eq!(
        ArithmeticInstructionTypes::from_byte(0x2B),
        Some(ArithmeticInstructionTypes::RegisterOrMemoryToOrFromRegister)
    );
    assert_eq!(
        ArithmeticInstructionTypes::from_byte(0x83),
        Some(ArithmeticInstructionTypes::ImmediateToRegisterOrMemory)
    );
    assert_eq!(
        ArithmeticInstructionTypes::from_byte(0x3C),
        Some(ArithmeticInstructionTypes::ImmediateToAccumulator)
    );
    assert_eq!(ArithmeticInstructionTypes::from_byte(0x90), None);
}

#[test]
fn jump_opcodes_are_twenty() {
    let jumps: Vec<u8> =
        (0..=255u8).filter(|value| JumpInstructions::is_jump_instruction(*value)).collect();
    let mut expected: Vec<u8> = (0x70..=0x7F).collect();
    expected.extend(0xE0..=0xE3);
    assert_eq!(jumps, expected);
}

#[test]
fn register_to_register_mov() {
    // mov cx, bx
    assert_eq!(
        decode(&[0x89, 0xD9]),
        Ok(Instructions::Mov(MovInstruction(parts(
            true,
            Some(InstructionMode::Register),
            register(Register::Cx),
            register(Register::Bx),
        ))))
    );
    // mov ch, ah
    assert_eq!(
        decode(&[0x88, 0xE5]),
        Ok(Instructions::Mov(MovInstruction(parts(
            false,
            Some(InstructionMode::Register),
            register(Register::Ch),
            register(Register::Ah),
        ))))
    );
}

#[test]
fn memory_forms_of_mov() {
    // mov al, [bx + si]
    assert_eq!(
        decode(&[0x8A, 0x00]),
        Ok(Instructions::Mov(MovInstruction(parts(
            false,
            Some(InstructionMode::Memory),
            register(Register::Al),
            Operand::Memory(EffectiveAddress::RegisterSum(Register::Bx, Register::Si)),
        ))))
    );
    // mov dx, [bp]
    assert_eq!(
        decode(&[0x8B, 0x56, 0x00]),
        Ok(Instructions::Mov(MovInstruction(parts(
            true,
            Some(InstructionMode::MemoryPlusByte),
            register(Register::Dx),
            Operand::Memory(EffectiveAddress::RegisterPlusByte(Register::Bp, 0)),
        ))))
    );
    // mov al, [bx + si + 4999]
    assert_eq!(
        decode(&[0x8A, 0x80, 0x87, 0x13]),
        Ok(Instructions::Mov(MovInstruction(parts(
            false,
            Some(InstructionMode::MemoryPlusWord),
            register(Register::Al),
            Operand::Memory(EffectiveAddress::RegisterSumPlusWord(
                Register::Bx,
                Register::Si,
                4999
            )),
        ))))
    );
    // mov [bx + di], cx
    assert_eq!(
        decode(&[0x89, 0x09]),
        Ok(Instructions::Mov(MovInstruction(parts(
            true,
            Some(InstructionMode::Memory),
            Operand::Memory(EffectiveAddress::RegisterSum(Register::Bx, Register::Di)),
            register(Register::Cx),
        ))))
    );
    // mov ax, [bx + di - 37]
    assert_eq!(
        decode(&[0x8B, 0x41, 0xDB]),
        Ok(Instructions::Mov(MovInstruction(parts(
            true,
            Some(InstructionMode::MemoryPlusByte),
            register(Register::Ax),
            Operand::Memory(EffectiveAddress::RegisterSumPlusByte(
                Register::Bx,
                Register::Di,
                -37
            )),
        ))))
    );
    // mov bp, [5]
    assert_eq!(
        decode(&[0x8B, 0x2E, 0x05, 0x00]),
        Ok(Instructions::Mov(MovInstruction(parts(
            true,
            Some(InstructionMode::Memory),
            register(Register::Bp),
            Operand::Memory(EffectiveAddress::DirectAddress(5)),
        ))))
    );
}

#[test]
fn every_base_of_the_address_table() {
    let plain = [
        EffectiveAddress::RegisterSum(Register::Bx, Register::Si),
        EffectiveAddress::RegisterSum(Register::Bx, Register::Di),
        EffectiveAddress::RegisterSum(Register::Bp, Register::Si),
        EffectiveAddress::RegisterSum(Register::Bp, Register::Di),
        EffectiveAddress::Register(Register::Si),
        EffectiveAddress::Register(Register::Di),
        EffectiveAddress::DirectAddress(0x0201),
        EffectiveAddress::Register(Register::Bx),
    ];
    let with_byte = [
        EffectiveAddress::RegisterSumPlusByte(Register::Bx, Register::Si, -1),
        EffectiveAddress::RegisterSumPlusByte(Register::Bx, Register::Di, -1),
        EffectiveAddress::RegisterSumPlusByte(Register::Bp, Register::Si, -1),
        EffectiveAddress::RegisterSumPlusByte(Register::Bp, Register::Di, -1),
        EffectiveAddress::RegisterPlusByte(Register::Si, -1),
        EffectiveAddress::RegisterPlusByte(Register::Di, -1),
        EffectiveAddress::RegisterPlusByte(Register::Bp, -1),
        EffectiveAddress::RegisterPlusByte(Register::Bx, -1),
    ];
    let with_word = [
        EffectiveAddress::RegisterSumPlusWord(Register::Bx, Register::Si, -2),
        EffectiveAddress::RegisterSumPlusWord(Register::Bx, Register::Di, -2),
        EffectiveAddress::RegisterSumPlusWord(Register::Bp, Register::Si, -2),
        EffectiveAddress::RegisterSumPlusWord(Register::Bp, Register::Di, -2),
        EffectiveAddress::RegisterPlusWord(Register::Si, -2),
        EffectiveAddress::RegisterPlusWord(Register::Di, -2),
        EffectiveAddress::RegisterPlusWord(Register::Bp, -2),
        EffectiveAddress::RegisterPlusWord(Register::Bx, -2),
    ];
    for rm in 0..8u8 {
        let mut stream = ByteStream::new(vec![0x01, 0x02]);
        assert_eq!(
            EffectiveAddress::read(&mut stream, InstructionMode::Memory, rm),
            Ok(plain[rm as usize])
        );
        assert_eq!(stream.stream_position(), if rm == 6 { 2 } else { 0 });

        let mut stream = ByteStream::new(vec![0xFF, 0x02]);
        assert_eq!(
            EffectiveAddress::read(&mut stream, InstructionMode::MemoryPlusByte, rm | 0xF8),
            Ok(with_byte[rm as usize])
        );
        assert_eq!(stream.stream_position(), 1);

        let mut stream = ByteStream::new(vec![0xFE, 0xFF]);
        assert_eq!(
            EffectiveAddress::read(&mut stream, InstructionMode::MemoryPlusWord, rm),
            Ok(with_word[rm as usize])
        );
        assert_eq!(stream.stream_position(), 2);

        let mut stream = ByteStream::new(vec![0xFE, 0xFF]);
        assert_eq!(
            EffectiveAddress::read(&mut stream, InstructionMode::Register, rm),
            Err(EngineError::IllegalOperand)
        );
        assert_eq!(stream.stream_position(), 0);
    }
}

#[test]
fn register_or_memory_operand() {
    let mut stream = ByteStream::new(vec![0x10]);
    assert_eq!(
        Operand::read(&mut stream, InstructionMode::Register, 0b11_000_011, true),
        Ok(register(Register::Bx))
    );
    assert_eq!(
        Operand::read(&mut stream, InstructionMode::Register, 0b11_000_011, false),
        Ok(register(Register::Bl))
    );
    assert_eq!(
        Operand::read(&mut stream, InstructionMode::Register, 0b11_111_111, false),
        Ok(register(Register::Bh))
    );
    assert_eq!(stream.stream_position(), 0);
    assert_eq!(
        Operand::read(&mut stream, InstructionMode::MemoryPlusByte, 0b01_000_110, true),
        Ok(Operand::Memory(EffectiveAddress::RegisterPlusByte(Register::Bp, 16)))
    );
    assert_eq!(stream.stream_position(), 1);
    assert_eq!(
        Operand::read(&mut stream, InstructionMode::MemoryPlusByte, 0b01_000_110, true),
        Err(EngineError::TruncatedStream)
    );
}

#[test]
fn immediate_forms_of_mov() {
    // mov cx, 12
    assert_eq!(
        decode(&[0xB9, 0x0C, 0x00]),
        Ok(Instructions::Mov(MovInstruction(parts(
            true,
            None,
            register(Register::Cx),
            word(12)
        ))))
    );
    // mov cl, -12
    assert_eq!(
        decode(&[0xB1, 0xF4]),
        Ok(Instructions::Mov(MovInstruction(parts(
            false,
            None,
            register(Register::Cl),
            byte(-12)
        ))))
    );
    // mov dx, -3948
    assert_eq!(
        decode(&[0xBA, 0x94, 0xF0]),
        Ok(Instructions::Mov(MovInstruction(parts(
            true,
            None,
            register(Register::Dx),
            word(-3948)
        ))))
    );
    // mov [bp + di], byte 7
    assert_eq!(
        decode(&[0xC6, 0x03, 0x07]),
        Ok(Instructions::Mov(MovInstruction(parts(
            false,
            Some(InstructionMode::Memory),
            Operand::Memory(EffectiveAddress::RegisterSum(Register::Bp, Register::Di)),
            byte(7)
        ))))
    );
    // mov [di + 901], word 347
    assert_eq!(
        decode(&[0xC7, 0x85, 0x85, 0x03, 0x5B, 0x01]),
        Ok(Instructions::Mov(MovInstruction(parts(
            true,
            Some(InstructionMode::MemoryPlusWord),
            Operand::Memory(EffectiveAddress::RegisterPlusWord(Register::Di, 901)),
            word(347)
        ))))
    );
}

#[test]
fn accumulator_forms_of_mov() {
    // mov ax, [2555]
    assert_eq!(
        decode(&[0xA1, 0xFB, 0x09]),
        Ok(Instructions::Mov(MovInstruction(parts(
            true,
            None,
            Operand::AccumulatorWide,
            Operand::Memory(EffectiveAddress::DirectAddress(2555)),
        ))))
    );
    // mov al, [16]
    assert_eq!(
        decode(&[0xA0, 0x10, 0x00]),
        Ok(Instructions::Mov(MovInstruction(parts(
            false,
            None,
            Operand::Accumulator,
            Operand::Memory(EffectiveAddress::DirectAddress(16)),
        ))))
    );
    // mov [2554], ax
    assert_eq!(
        decode(&[0xA3, 0xFA, 0x09]),
        Ok(Instructions::Mov(MovInstruction(parts(
            true,
            None,
            Operand::Memory(EffectiveAddress::DirectAddress(2554)),
            Operand::AccumulatorWide,
        ))))
    );
    // mov [15], al
    assert_eq!(
        decode(&[0xA2, 0x0F, 0x00]),
        Ok(Instructions::Mov(MovInstruction(parts(
            false,
            None,
            Operand::Memory(EffectiveAddress::DirectAddress(15)),
            Operand::Accumulator,
        ))))
    );
}

#[test]
fn segment_register_forms_of_mov() {
    // mov es, ax
    assert_eq!(
        decode(&[0x8E, 0xC0]),
        Ok(Instructions::Mov(MovInstruction(parts(
            true,
            Some(InstructionMode::Register),
            Operand::SegmentRegister(SegmentRegister::Es),
            register(Register::Ax),
        ))))
    );
    // mov ax, cs
    assert_eq!(
        decode(&[0x8C, 0xC8]),
        Ok(Instructions::Mov(MovInstruction(parts(
            true,
            Some(InstructionMode::Register),
            register(Register::Ax),
            Operand::SegmentRegister(SegmentRegister::Cs),
        ))))
    );
    // mov ds, [bx]
    assert_eq!(
        decode(&[0x8E, 0x1F]),
        Ok(Instructions::Mov(MovInstruction(parts(
            true,
            Some(InstructionMode::Memory),
            Operand::SegmentRegister(SegmentRegister::Ds),
            Operand::Memory(EffectiveAddress::Register(Register::Bx)),
        ))))
    );
}

#[test]
fn arithmetic_between_register_and_memory() {
    // add bx, [bx + si]
    assert_eq!(
        decode(&[0x03, 0x18]),
        Ok(Instructions::Add(AddInstruction(parts(
            true,
            Some(InstructionMode::Memory),
            register(Register::Bx),
            Operand::Memory(EffectiveAddress::RegisterSum(Register::Bx, Register::Si)),
        ))))
    );
    // sub [bx + 2], cx  (hand-assembled: 29 4F 02)
    assert_eq!(
        decode(&[0x29, 0x4F, 0x02]),
        Ok(Instructions::Sub(SubtractInstruction(parts(
            true,
            Some(InstructionMode::MemoryPlusByte),
            Operand::Memory(EffectiveAddress::RegisterPlusByte(Register::Bx, 2)),
            register(Register::Cx),
        ))))
    );
    // cmp al, ah
    assert_eq!(
        decode(&[0x38, 0xE0]),
        Ok(Instructions::Cmp(CompareInstruction(parts(
            false,
            Some(InstructionMode::Register),
            register(Register::Al),
            register(Register::Ah),
        ))))
    );
}

#[test]
fn arithmetic_with_the_accumulator() {
    // add ax, 1000
    assert_eq!(
        decode(&[0x05, 0xE8, 0x03]),
        Ok(Instructions::Add(AddInstruction(parts(
            true,
            None,
            Operand::AccumulatorWide,
            word(1000)
        ))))
    );
    // sub al, -30
    assert_eq!(
        decode(&[0x2C, 0xE2]),
        Ok(Instructions::Sub(SubtractInstruction(parts(
            false,
            None,
            Operand::Accumulator,
            byte(-30)
        ))))
    );
    // cmp ax, 2
    assert_eq!(
        decode(&[0x3D, 0x02, 0x00]),
        Ok(Instructions::Cmp(CompareInstruction(parts(
            true,
            None,
            Operand::AccumulatorWide,
            word(2)
        ))))
    );
}

#[test]
fn immediate_group_is_told_apart_by_the_next_byte() {
    // add si, 2: W and S set, a byte that is sign-extended
    assert_eq!(
        decode(&[0x83, 0xC6, 0x02]),
        Ok(Instructions::Add(AddInstruction(parts(
            true,
            Some(InstructionMode::Register),
            register(Register::Si),
            word(2)
        ))))
    );
    // sub si, -2 in the same form
    assert_eq!(
        decode(&[0x83, 0xEE, 0xFE]),
        Ok(Instructions::Sub(SubtractInstruction(parts(
            true,
            Some(InstructionMode::Register),
            register(Register::Si),
            word(-2)
        ))))
    );
    // cmp bx, 30000: W set, S clear, a full word
    assert_eq!(
        decode(&[0x81, 0xFB, 0x30, 0x75]),
        Ok(Instructions::Cmp(CompareInstruction(parts(
            true,
            Some(InstructionMode::Register),
            register(Register::Bx),
            word(30000)
        ))))
    );
    // add byte [bx], 34: W clear
    assert_eq!(
        decode(&[0x80, 0x07, 0x22]),
        Ok(Instructions::Add(AddInstruction(parts(
            false,
            Some(InstructionMode::Memory),
            Operand::Memory(EffectiveAddress::Register(Register::Bx)),
            byte(34)
        ))))
    );
    // W clear, S set: still a byte
    assert_eq!(
        decode(&[0x82, 0x07, 0x22]),
        Ok(Instructions::Add(AddInstruction(parts(
            false,
            Some(InstructionMode::Memory),
            Operand::Memory(EffectiveAddress::Register(Register::Bx)),
            byte(34)
        ))))
    );
    // add word [bp + si + 1000], 29
    assert_eq!(
        decode(&[0x83, 0x82, 0xE8, 0x03, 0x1D]),
        Ok(Instructions::Add(AddInstruction(parts(
            true,
            Some(InstructionMode::MemoryPlusWord),
            Operand::Memory(EffectiveAddress::RegisterSumPlusWord(
                Register::Bp,
                Register::Si,
                1000
            )),
            word(29)
        ))))
    );
}

#[test]
fn every_jump_decodes_to_its_variant() {
    let table: [(u8, fn(i8) -> JumpInstructions); 20] = [
        (0x74, JumpInstructions::JumpOnEqualOrZero),
        (0x7C, JumpInstructions::JumpOnLess),
        (0x7E, JumpInstructions::JumpOnLessOrEqual),
        (0x72, JumpInstructions::JumpOnBelow),
        (0x76, JumpInstructions::JumpOnBelowOrEqual),
        (0x7A, JumpInstructions::JumpOnParityEven),
        (0x70, JumpInstructions::JumpOnOverflow),
        (0x78, JumpInstructions::JumpOnSign),
        (0x75, JumpInstructions::JumpOnNotEqualAndNotZero),
        (0x7D, JumpInstructions::JumpOnNotLess),
        (0x7F, JumpInstructions::JumpOnNotLessAndNotEqual),
        (0x73, JumpInstructions::JumpOnNotBelow),
        (0x77, JumpInstructions::JumpOnNotBelowAndNotEqual),
        (0x7B, JumpInstructions::JumpOnParityOdd),
        (0x71, JumpInstructions::JumpOnNotOverflow),
        (0x79, JumpInstructions::JumpOnNotSign),
        (0xE2, JumpInstructions::Loop),
        (0xE1, JumpInstructions::LoopWhileZeroOrEqual),
        (0xE0, JumpInstructions::LoopWhileNotZeroAndNotEqual),
        (0xE3, JumpInstructions::JumpOnCxZero),
    ];
    for (opcode, variant) in table {
        assert_eq!(decode(&[opcode, 0xFB]), Ok(Instructions::Jump(variant(-5))));
        assert_eq!(decode(&[opcode, 0x7F]), Ok(Instructions::Jump(variant(127))));
        assert_eq!(variant(-128).displacement(), -128);
        assert_eq!(variant(3).num_cycles(), 16);
        assert_eq!(decode(&[opcode]), Err(EngineError::TruncatedStream));
    }
}

#[test]
fn jump_read_refuses_other_opcodes() {
    let mut stream = ByteStream::new(vec![0x05]);
    assert_eq!(JumpInstructions::read(&mut stream, 0x80), Err(EngineError::InvalidOpcode));
    assert_eq!(JumpInstructions::read(&mut stream, 0xE4), Err(EngineError::InvalidOpcode));
    assert_eq!(stream.stream_position(), 0);
    assert_eq!(
        JumpInstructions::read(&mut stream, 0xE3),
        Ok(JumpInstructions::JumpOnCxZero(5))
    );
}

#[test]
fn unknown_opcodes_are_refused() {
    for opcode in [0xF4u8, 0x90, 0xCC, 0xE8, 0xEB, 0x0F, 0x06, 0x40, 0xFF, 0xE4, 0x84, 0xA4] {
        assert_eq!(decode(&[opcode, 0, 0, 0, 0, 0]), Err(EngineError::InvalidOpcode), "{opcode:02x}");
    }
}

#[test]
fn immediate_group_members_other_than_add_sub_cmp_are_refused() {
    for reg in [1u8, 2, 3, 4, 6] {
        let target = 0xC0 | (reg << 3) | 3;
        assert_eq!(decode(&[0x81, target, 1, 0]), Err(EngineError::InvalidOpcode));
        assert_eq!(decode(&[0x80, target, 1]), Err(EngineError::InvalidOpcode));
    }
    assert_eq!(decode(&[0x81]), Err(EngineError::TruncatedStream));
}

#[test]
fn instructions_cut_short_are_refused() {
    for bytes in [
        &[0xB9u8, 0x03][..],
        &[0xB9],
        &[0xB1],
        &[0x89],
        &[0x8B, 0x46],
        &[0x8B, 0x86, 0x01],
        &[0x8B, 0x2E, 0x05],
        &[0xC7, 0x46, 0x02, 0x07],
        &[0xC7, 0x46],
        &[0xA1, 0x01],
        &[0xA3],
        &[0x05, 0x01],
        &[0x2C],
        &[0x83, 0xC6],
        &[0x81, 0xC3, 0x30],
        &[0x8E],
        &[0x03],
    ] {
        assert_eq!(decode(bytes), Err(EngineError::TruncatedStream), "{bytes:02x?}");
    }
}

#[test]
fn end_of_stream_is_not_an_error() {
    let mut stream = ByteStream::new(vec![0x89, 0xD9]);
    assert!(matches!(Instructions::decode_one(&mut stream), Ok(Some(_))));
    assert_eq!(Instructions::decode_one(&mut stream), Ok(None));
    assert_eq!(stream.stream_position(), 2);
}

#[test]
fn read_takes_the_first_byte_as_an_argument() {
    let mut stream = ByteStream::new(vec![0xD9]);
    assert_eq!(
        Instructions::read(&mut stream, 0x89),
        Ok(Instructions::Mov(MovInstruction(parts(
            true,
            Some(InstructionMode::Register),
            register(Register::Cx),
            register(Register::Bx),
        ))))
    );
    assert_eq!(stream.stream_position(), 1);

    let mut stream = ByteStream::new(vec![0xD9]);
    assert_eq!(
        MovInstruction::read(&mut stream, 0x01),
        Err(EngineError::InvalidOpcode)
    );
    assert_eq!(
        AddInstruction::read(&mut stream, 0x89).map(|_| ()),
        Err(EngineError::InvalidOpcode)
    );
    assert_eq!(
        AddInstruction::read(&mut stream, 0x01),
        Ok(AddInstruction::new(
            true,
            Some(InstructionMode::Register),
            register(Register::Bx),
            register(Register::Cx),
        ))
    );
}
