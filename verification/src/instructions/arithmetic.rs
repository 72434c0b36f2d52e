//! The encodings shared by ADD, SUB and CMP.

use crate::error::EngineError;
use crate::helpers::Bit::{Any, One, Zero};
use crate::helpers::{bit_match, bit_of, matches_pattern};
use crate::instructions::instruction::AnyInstruction;
use crate::instructions::operands::{
    immediate_at, operand_at, register_selector, ImmediateValue, Operand,
};
use crate::mode::{mode_of, InstructionMode};
use crate::register::{register_of_index, Register};
use crate::stream::ByteStream;
use vstd::prelude::*;

verus! {

/// The three encodings of an arithmetic instruction.
#[derive(Clone, Copy, PartialEq, Eq, Structural, Debug)]
pub enum ArithmeticInstructionTypes {
    RegisterOrMemoryToOrFromRegister,
    ImmediateToRegisterOrMemory,
    ImmediateToAccumulator,
}

/// The encoding that an opcode byte selects, if it is an arithmetic one.
pub open spec fn arithmetic_kind(opcode: u8) -> Option<ArithmeticInstructionTypes> {
    if matches_pattern(opcode, [Zero, Zero, Zero, Zero, Zero, Zero, Any, Any]) || matches_pattern(
        opcode,
        [Zero, Zero, One, Zero, One, Zero, Any, Any],
    ) || matches_pattern(opcode, [Zero, Zero, One, One, One, Zero, Any, Any]) {
        Some(ArithmeticInstructionTypes::RegisterOrMemoryToOrFromRegister)
    } else if matches_pattern(opcode, [One, Zero, Zero, Zero, Zero, Zero, Any, Any]) {
        Some(ArithmeticInstructionTypes::ImmediateToRegisterOrMemory)
    } else if matches_pattern(opcode, [Zero, Zero, Zero, Zero, Zero, One, Zero, Any])
        || matches_pattern(opcode, [Zero, Zero, One, Zero, One, One, Zero, Any]) || matches_pattern(
        opcode,
        [Zero, Zero, One, One, One, One, Zero, Any],
    ) {
        Some(ArithmeticInstructionTypes::ImmediateToAccumulator)
    } else {
        None
    }
}

/// The 3-bit REG field of a MOD/REG/RM byte.
pub open spec fn reg_field(target: u8) -> int {
    (target as int / 8) % 8
}

/// The immediate of an immediate-to-register/memory arithmetic
/// instruction: a word when W is set and S is clear, a sign-extended byte
/// when both are set, a byte when W is clear.
pub open spec fn sized_immediate_at(bytes: Seq<u8>, position: int, is_wide: bool, is_signed: bool)
    -> Result<(ImmediateValue, int), EngineError> {
    if is_wide && is_signed {
        match immediate_at(bytes, position, false) {
            Ok((value, after)) => Ok((ImmediateValue::SignedWord(value.as_int() as i16), after)),
            Err(error) => Err(error),
        }
    } else {
        immediate_at(bytes, position, is_wide)
    }
}

/// The arithmetic instruction whose opcode byte is `opcode` and whose
/// remaining bytes start at `position`, with the position after it.
pub open spec fn arithmetic_at(bytes: Seq<u8>, position: int, opcode: u8) -> Result<
    (AnyInstruction, int),
    EngineError,
> {
    let is_wide = bit_of(opcode, 0) == 1;
    let second_bit = bit_of(opcode, 1) == 1;
    match arithmetic_kind(opcode) {
        None => Err(EngineError::InvalidOpcode),
        Some(ArithmeticInstructionTypes::RegisterOrMemoryToOrFromRegister) => if position
            >= bytes.len() {
            Err(EngineError::TruncatedStream)
        } else {
            let target = bytes[position];
            let register = Operand::Register(
                register_of_index(register_selector(reg_field(target), is_wide)),
            );
            match operand_at(bytes, position + 1, mode_of(target), target, is_wide) {
                Ok((register_or_memory, after)) => Ok(
                    (
                        AnyInstruction {
                            is_wide,
                            mode: Some(mode_of(target)),
                            source: if second_bit {
                                register_or_memory
                            } else {
                                register
                            },
                            destination: if second_bit {
                                register
                            } else {
                                register_or_memory
                            },
                        },
                        after,
                    ),
                ),
                Err(error) => Err(error),
            }
        },
        Some(ArithmeticInstructionTypes::ImmediateToAccumulator) => match immediate_at(
            bytes,
            position,
            is_wide,
        ) {
            Ok((value, after)) => Ok(
                (
                    AnyInstruction {
                        is_wide,
                        mode: None,
                        source: Operand::Immediate(value),
                        destination: if is_wide {
                            Operand::AccumulatorWide
                        } else {
                            Operand::Accumulator
                        },
                    },
                    after,
                ),
            ),
            Err(error) => Err(error),
        },
        Some(ArithmeticInstructionTypes::ImmediateToRegisterOrMemory) => if position
            >= bytes.len() {
            Err(EngineError::TruncatedStream)
        } else {
            let target = bytes[position];
            match operand_at(bytes, position + 1, mode_of(target), target, is_wide) {
                Ok((register_or_memory, after)) => match sized_immediate_at(
                    bytes,
                    after,
                    is_wide,
                    second_bit,
                ) {
                    Ok((value, end)) => Ok(
                        (
                            AnyInstruction {
                                is_wide,
                                mode: Some(mode_of(target)),
                                source: Operand::Immediate(value),
                                destination: register_or_memory,
                            },
                            end,
                        ),
                    ),
                    Err(error) => Err(error),
                },
                Err(error) => Err(error),
            }
        },
    }
}

impl ArithmeticInstructionTypes {
    /// Classifies an opcode byte.
    pub fn from_byte(value: u8) -> (kind: Option<ArithmeticInstructionTypes>)
        ensures
            kind == arithmetic_kind(value),
    {
        if bit_match(value, [Zero, Zero, Zero, Zero, Zero, Zero, Any, Any]) || bit_match(
            value,
            [Zero, Zero, One, Zero, One, Zero, Any, Any],
        ) || bit_match(value, [Zero, Zero, One, One, One, Zero, Any, Any]) {
            Some(ArithmeticInstructionTypes::RegisterOrMemoryToOrFromRegister)
        } else if bit_match(value, [One, Zero, Zero, Zero, Zero, Zero, Any, Any]) {
            Some(ArithmeticInstructionTypes::ImmediateToRegisterOrMemory)
        } else if bit_match(value, [Zero, Zero, Zero, Zero, Zero, One, Zero, Any]) || bit_match(
            value,
            [Zero, Zero, One, Zero, One, One, Zero, Any],
        ) || bit_match(value, [Zero, Zero, One, One, One, One, Zero, Any]) {
            Some(ArithmeticInstructionTypes::ImmediateToAccumulator)
        } else {
            None
        }
    }
}

/// The register that a REG field selects at the given width.
pub fn register_operand(target: u8, is_wide: bool) -> (operand: Operand)
    ensures
        operand == Operand::Register(
            register_of_index(register_selector(reg_field(target), is_wide)),
        ),
{
    let field: u8 = (target / 8) % 8;
    let selector: u8 = if is_wide {
        field * 2 + 1
    } else {
        field * 2
    };
    Operand::Register(Register::from_byte(selector))
}

fn read_parts(stream: &mut ByteStream, instruction_byte: u8) -> (outcome: Result<
    AnyInstruction,
    EngineError,
>)
    ensures
        final(stream).bytes() == old(stream).bytes(),
        old(stream).pos() <= final(stream).pos(),
        match arithmetic_at(old(stream).bytes(), old(stream).pos(), instruction_byte) {
            Ok((parts, position)) => outcome == Ok::<AnyInstruction, EngineError>(parts) && final(
                stream
            ).pos() == position,
            Err(error) => outcome == Err::<AnyInstruction, EngineError>(error),
        },
{
    let is_wide: bool = bit_match(instruction_byte, [Any, Any, Any, Any, Any, Any, Any, One]);
    let second_bit: bool = bit_match(instruction_byte, [Any, Any, Any, Any, Any, Any, One, Any]);
    match ArithmeticInstructionTypes::from_byte(instruction_byte) {
        None => Err(EngineError::InvalidOpcode),
        Some(ArithmeticInstructionTypes::RegisterOrMemoryToOrFromRegister) => {
            let target: u8 = stream.read_u8()?;
            let mode = InstructionMode::from_byte(target);
            let register = register_operand(target, is_wide);
            let register_or_memory = Operand::read(stream, mode, target, is_wide)?;
            Ok(
                AnyInstruction {
                    is_wide,
                    mode: Some(mode),
                    source: if second_bit {
                        register_or_memory
                    } else {
                        register
                    },
                    destination: if second_bit {
                        register
                    } else {
                        register_or_memory
                    },
                },
            )
        },
        Some(ArithmeticInstructionTypes::ImmediateToAccumulator) => {
            let data = ImmediateValue::read(stream, is_wide)?;
            Ok(
                AnyInstruction {
                    is_wide,
                    mode: None,
                    source: Operand::Immediate(data),
                    destination: if is_wide {
                        Operand::AccumulatorWide
                    } else {
                        Operand::Accumulator
                    },
                },
            )
        },
        Some(ArithmeticInstructionTypes::ImmediateToRegisterOrMemory) => {
            let target: u8 = stream.read_u8()?;
            let mode = InstructionMode::from_byte(target);
            let register_or_memory = Operand::read(stream, mode, target, is_wide)?;
            let data = if is_wide && second_bit {
                ImmediateValue::SignedWord(stream.read_i8()? as i16)
            } else {
                ImmediateValue::read(stream, is_wide)?
            };
            Ok(
                AnyInstruction {
                    is_wide,
                    mode: Some(mode),
                    source: Operand::Immediate(data),
                    destination: register_or_memory,
                },
            )
        },
    }
}

/// Decodes the operands of an arithmetic instruction whose opcode byte
/// has been read. On failure the stream keeps its position.
pub fn read_arithmetic(stream: &mut ByteStream, instruction_byte: u8) -> (outcome: Result<
    AnyInstruction,
    EngineError,
>)
    ensures
        final(stream).bytes() == old(stream).bytes(),
        match arithmetic_at(old(stream).bytes(), old(stream).pos(), instruction_byte) {
            Ok((parts, position)) => outcome == Ok::<AnyInstruction, EngineError>(parts) && final(
                stream
            ).pos() == position,
            Err(error) => outcome == Err::<AnyInstruction, EngineError>(error) && final(
                stream
            ).pos() == old(stream).pos(),
        },
{
    let start: usize = stream.stream_position();
    let outcome = read_parts(stream, instruction_byte);
    if outcome.is_err() {
        stream.rewind(start);
    }
    outcome
}

/// An instruction made of the parts that the arithmetic encodings carry.
pub trait ArithmeticInstruction: Sized {
    /// The parts of the instruction.
    spec fn parts(&self) -> AnyInstruction;

    /// The instruction made of the given parts.
    fn new(
        is_wide: bool,
        mode: Option<InstructionMode>,
        source: Operand,
        destination: Operand,
    ) -> (instruction: Self)
        ensures
            instruction.parts() == (AnyInstruction { is_wide, mode, source, destination }),
    ;

    /// Decodes the instruction whose opcode byte has been read. On failure
    /// the stream keeps its position.
    fn read(stream: &mut ByteStream, instruction_byte: u8) -> (outcome: Result<Self, EngineError>)
        ensures
            final(stream).bytes() == old(stream).bytes(),
            match arithmetic_at(old(stream).bytes(), old(stream).pos(), instruction_byte) {
                Ok((parts, position)) => outcome matches Ok(instruction) && instruction.parts()
                    == parts && final(stream).pos() == position,
                Err(error) => outcome matches Err(reason) && reason == error && final(
                    stream
                ).pos() == old(stream).pos(),
            },
    {
        match read_arithmetic(stream, instruction_byte) {
            Ok(parts) => Ok(Self::new(parts.is_wide, parts.mode, parts.source, parts.destination)),
            Err(error) => Err(error),
        }
    }
}

} // verus!
