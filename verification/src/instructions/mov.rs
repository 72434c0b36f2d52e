//! MOV: its encodings, execution, timing and listing.

use crate::cycle::{mov_cycles, mov_num_cycles, penalty_cycles, penalty_of};
use crate::error::EngineError;
use crate::helpers::Bit::{Any, One, Zero};
use crate::helpers::{bit_match, bit_of, matches_pattern};
use crate::instructions::arithmetic::{reg_field, register_operand};
use crate::instructions::instruction::{AnyInstruction, Effect, Instruction};
use crate::instructions::operands::{
    immediate_at, operand_at, register_selector, ImmediateValue, Operand,
};
use crate::memory::EffectiveAddress;
use crate::mode::{mode_of, InstructionMode};
use crate::register::{register_of_index, Register};
use crate::segment_register::{segment_register_of_index, SegmentRegister};
use crate::store::{MachineState, Store};
use crate::stream::{word_le, ByteStream};
use vstd::prelude::*;

verus! {

/// The six encodings of MOV.
#[derive(Clone, Copy, PartialEq, Eq, Structural, Debug)]
pub enum MovInstructionTypes {
    RegisterOrMemoryToOrFromRegister,
    RegisterOrMemoryToOrFromSegmentRegister,
    ImmediateToRegisterOrMemory,
    ImmediateToRegister,
    MemoryToAccumulator,
    AccumulatorToMemory,
}

/// A MOV instruction.
#[derive(Clone, Copy, PartialEq, Eq, Structural, Debug)]
pub struct MovInstruction(pub AnyInstruction);

/// The encoding that an opcode byte selects, if it is a MOV.
pub open spec fn mov_kind(opcode: u8) -> Option<MovInstructionTypes> {
    if matches_pattern(opcode, [One, Zero, Zero, Zero, One, Zero, Any, Any]) {
        Some(MovInstructionTypes::RegisterOrMemoryToOrFromRegister)
    } else if matches_pattern(opcode, [One, Zero, Zero, Zero, One, One, Any, Any]) {
        Some(MovInstructionTypes::RegisterOrMemoryToOrFromSegmentRegister)
    } else if matches_pattern(opcode, [One, One, Zero, Zero, Zero, One, One, Any]) {
        Some(MovInstructionTypes::ImmediateToRegisterOrMemory)
    } else if matches_pattern(opcode, [One, Zero, One, One, Any, Any, Any, Any]) {
        Some(MovInstructionTypes::ImmediateToRegister)
    } else if matches_pattern(opcode, [One, Zero, One, Zero, Zero, Zero, Zero, Any]) {
        Some(MovInstructionTypes::MemoryToAccumulator)
    } else if matches_pattern(opcode, [One, Zero, One, Zero, Zero, Zero, One, Any]) {
        Some(MovInstructionTypes::AccumulatorToMemory)
    } else {
        None
    }
}

/// The accumulator of the given width.
pub open spec fn accumulator(is_wide: bool) -> Operand {
    if is_wide {
        Operand::AccumulatorWide
    } else {
        Operand::Accumulator
    }
}

/// The MOV instruction whose opcode byte is `opcode` and whose remaining
/// bytes start at `position`, with the position after it.
pub open spec fn mov_at(bytes: Seq<u8>, position: int, opcode: u8) -> Result<
    (AnyInstruction, int),
    EngineError,
> {
    let is_wide = bit_of(opcode, 0) == 1;
    let to_register = bit_of(opcode, 1) == 1;
    match mov_kind(opcode) {
        None => Err(EngineError::InvalidOpcode),
        Some(MovInstructionTypes::RegisterOrMemoryToOrFromRegister) => if position
            >= bytes.len() {
            Err(EngineError::TruncatedStream)
        } else {
            let target = bytes[position];
            let register = Operand::Register(
                register_of_index(register_selector(reg_field(target), is_wide)),
            );
            match operand_at(bytes, position + 1, mode_of(target), target, is_wide) {
                Ok((register_or_memory, after)) => Ok(
                    (
                        AnyInstruction {
                            is_wide,
                            mode: Some(mode_of(target)),
                            source: if to_register {
                                register_or_memory
                            } else {
                                register
                            },
                            destination: if to_register {
                                register
                            } else {
                                register_or_memory
                            },
                        },
                        after,
                    ),
                ),
                Err(error) => Err(error),
            }
        },
        Some(MovInstructionTypes::RegisterOrMemoryToOrFromSegmentRegister) => if position
            >= bytes.len() {
            Err(EngineError::TruncatedStream)
        } else {
            let target = bytes[position];
            let segment_register = Operand::SegmentRegister(
                segment_register_of_index(reg_field(target) % 4),
            );
            match operand_at(bytes, position + 1, mode_of(target), target, true) {
                Ok((register_or_memory, after)) => Ok(
                    (
                        AnyInstruction {
                            is_wide: true,
                            mode: Some(mode_of(target)),
                            source: if to_register {
                                register_or_memory
                            } else {
                                segment_register
                            },
                            destination: if to_register {
                                segment_register
                            } else {
                                register_or_memory
                            },
                        },
                        after,
                    ),
                ),
                Err(error) => Err(error),
            }
        },
        Some(MovInstructionTypes::ImmediateToRegister) => {
            let wide = bit_of(opcode, 3) == 1;
            match immediate_at(bytes, position, wide) {
                Ok((value, after)) => Ok(
                    (
                        AnyInstruction {
                            is_wide: wide,
                            mode: None,
                            source: Operand::Immediate(value),
                            destination: Operand::Register(
                                register_of_index(register_selector(opcode as int % 8, wide)),
                            ),
                        },
                        after,
                    ),
                ),
                Err(error) => Err(error),
            }
        },
        Some(MovInstructionTypes::MemoryToAccumulator) => if position + 2 <= bytes.len() {
            Ok(
                (
                    AnyInstruction {
                        is_wide,
                        mode: None,
                        source: Operand::Memory(
                            EffectiveAddress::DirectAddress(word_le(bytes, position) as u16),
                        ),
                        destination: accumulator(is_wide),
                    },
                    position + 2,
                ),
            )
        } else {
            Err(EngineError::TruncatedStream)
        },
        Some(MovInstructionTypes::AccumulatorToMemory) => if position + 2 <= bytes.len() {
            Ok(
                (
                    AnyInstruction {
                        is_wide,
                        mode: None,
                        source: accumulator(is_wide),
                        destination: Operand::Memory(
                            EffectiveAddress::DirectAddress(word_le(bytes, position) as u16),
                        ),
                    },
                    position + 2,
                ),
            )
        } else {
            Err(EngineError::TruncatedStream)
        },
        Some(MovInstructionTypes::ImmediateToRegisterOrMemory) => if position >= bytes.len() {
            Err(EngineError::TruncatedStream)
        } else {
            let target = bytes[position];
            match operand_at(bytes, position + 1, mode_of(target), target, is_wide) {
                Ok((register_or_memory, after)) => match immediate_at(bytes, after, is_wide) {
                    Ok((value, end)) => Ok(
                        (
                            AnyInstruction {
                                is_wide,
                                mode: Some(mode_of(target)),
                                source: Operand::Immediate(value),
                                destination: register_or_memory,
                            },
                            end,
                        ),
                    ),
                    Err(error) => Err(error),
                },
                Err(error) => Err(error),
            }
        },
    }
}

impl MovInstructionTypes {
    /// Classifies an opcode byte.
    pub fn from_byte(value: u8) -> (kind: Option<MovInstructionTypes>)
        ensures
            kind == mov_kind(value),
    {
        if bit_match(value, [One, Zero, Zero, Zero, One, Zero, Any, Any]) {
            Some(MovInstructionTypes::RegisterOrMemoryToOrFromRegister)
        } else if bit_match(value, [One, Zero, Zero, Zero, One, One, Any, Any]) {
            Some(MovInstructionTypes::RegisterOrMemoryToOrFromSegmentRegister)
        } else if bit_match(value, [One, One, Zero, Zero, Zero, One, One, Any]) {
            Some(MovInstructionTypes::ImmediateToRegisterOrMemory)
        } else if bit_match(value, [One, Zero, One, One, Any, Any, Any, Any]) {
            Some(MovInstructionTypes::ImmediateToRegister)
        } else if bit_match(value, [One, Zero, One, Zero, Zero, Zero, Zero, Any]) {
            Some(MovInstructionTypes::MemoryToAccumulator)
        } else if bit_match(value, [One, Zero, One, Zero, Zero, Zero, One, Any]) {
            Some(MovInstructionTypes::AccumulatorToMemory)
        } else {
            None
        }
    }
}

fn accumulator_operand(is_wide: bool) -> (operand: Operand)
    ensures
        operand == accumulator(is_wide),
{
    if is_wide {
        Operand::AccumulatorWide
    } else {
        Operand::Accumulator
    }
}

fn read_parts(stream: &mut ByteStream, instruction_byte: u8) -> (outcome: Result<
    AnyInstruction,
    EngineError,
>)
    ensures
        final(stream).bytes() == old(stream).bytes(),
        old(stream).pos() <= final(stream).pos(),
        match mov_at(old(stream).bytes(), old(stream).pos(), instruction_byte) {
            Ok((parts, position)) => outcome == Ok::<AnyInstruction, EngineError>(parts) && final(
                stream
            ).pos() == position,
            Err(error) => outcome == Err::<AnyInstruction, EngineError>(error),
        },
{
    let is_wide: bool = bit_match(instruction_byte, [Any, Any, Any, Any, Any, Any, Any, One]);
    let to_register: bool = bit_match(instruction_byte, [Any, Any, Any, Any, Any, Any, One, Any]);
    match MovInstructionTypes::from_byte(instruction_byte) {
        None => Err(EngineError::InvalidOpcode),
        Some(MovInstructionTypes::RegisterOrMemoryToOrFromRegister) => {
            let target: u8 = stream.read_u8()?;
            let mode = InstructionMode::from_byte(target);
            let register = register_operand(target, is_wide);
            let register_or_memory = Operand::read(stream, mode, target, is_wide)?;
            Ok(
                AnyInstruction {
                    is_wide,
                    mode: Some(mode),
                    source: if to_register {
                        register_or_memory
                    } else {
                        register
                    },
                    destination: if to_register {
                        register
                    } else {
                        register_or_memory
                    },
                },
            )
        },
        Some(MovInstructionTypes::RegisterOrMemoryToOrFromSegmentRegister) => {
            let target: u8 = stream.read_u8()?;
            let mode = InstructionMode::from_byte(target);
            let segment_register = Operand::SegmentRegister(
                SegmentRegister::from_byte((target / 8) % 8),
            );
            let register_or_memory = Operand::read(stream, mode, target, true)?;
            Ok(
                AnyInstruction {
                    is_wide: true,
                    mode: Some(mode),
                    source: if to_register {
                        register_or_memory
                    } else {
                        segment_register
                    },
                    destination: if to_register {
                        segment_register
                    } else {
                        register_or_memory
                    },
                },
            )
        },
        Some(MovInstructionTypes::ImmediateToRegister) => {
            let wide: bool = bit_match(instruction_byte, [Any, Any, Any, Any, One, Any, Any, Any]);
            let field: u8 = instruction_byte % 8;
            let selector: u8 = if wide {
                field * 2 + 1
            } else {
                field * 2
            };
            let data = ImmediateValue::read(stream, wide)?;
            Ok(
                AnyInstruction {
                    is_wide: wide,
                    mode: None,
                    source: Operand::Immediate(data),
                    destination: Operand::Register(Register::from_byte(selector)),
                },
            )
        },
        Some(MovInstructionTypes::MemoryToAccumulator) => {
            let memory_location: u16 = stream.read_u16()?;
            Ok(
                AnyInstruction {
                    is_wide,
                    mode: None,
                    source: Operand::Memory(EffectiveAddress::DirectAddress(memory_location)),
                    destination: accumulator_operand(is_wide),
                },
            )
        },
        Some(MovInstructionTypes::AccumulatorToMemory) => {
            let memory_location: u16 = stream.read_u16()?;
            Ok(
                AnyInstruction {
                    is_wide,
                    mode: None,
                    source: accumulator_operand(is_wide),
                    destination: Operand::Memory(EffectiveAddress::DirectAddress(memory_location)),
                },
            )
        },
        Some(MovInstructionTypes::ImmediateToRegisterOrMemory) => {
            let target: u8 = stream.read_u8()?;
            let mode = InstructionMode::from_byte(target);
            let register_or_memory = Operand::read(stream, mode, target, is_wide)?;
            let data = ImmediateValue::read(stream, is_wide)?;
            Ok(
                AnyInstruction {
                    is_wide,
                    mode: Some(mode),
                    source: Operand::Immediate(data),
                    destination: register_or_memory,
                },
            )
        },
    }
}

impl MovInstruction {
    /// Decodes the MOV whose opcode byte has been read. On failure the
    /// stream keeps its position.
    pub fn read(stream: &mut ByteStream, instruction_byte: u8) -> (outcome: Result<
        MovInstruction,
        EngineError,
    >)
        ensures
            final(stream).bytes() == old(stream).bytes(),
            match mov_at(old(stream).bytes(), old(stream).pos(), instruction_byte) {
                Ok((parts, position)) => outcome == Ok::<MovInstruction, EngineError>(
                    MovInstruction(parts),
                ) && final(stream).pos() == position,
                Err(error) => outcome == Err::<MovInstruction, EngineError>(error) && final(
                    stream
                ).pos() == old(stream).pos(),
            },
    {
        let start: usize = stream.stream_position();
        match read_parts(stream, instruction_byte) {
            Ok(parts) => Ok(MovInstruction(parts)),
            Err(error) => {
                stream.rewind(start);
                Err(error)
            },
        }
    }
}

impl MovInstruction {
    /// The cycles of the instruction by the kinds of its operands, before
    /// any penalty; nothing where MOV has no such pair of operands.
    pub fn num_cycles(&self) -> (cycles: Option<u32>)
        ensures
            cycles is Some == mov_cycles(self.0.destination, self.0.source) is Some,
            cycles matches Some(count) ==> count as int == mov_cycles(
                self.0.destination,
                self.0.source,
            ).unwrap(),
    {
        mov_num_cycles(self.0.destination, self.0.source)
    }
}

impl Instruction for MovInstruction {
    /// The destination receives the value of the source; no flag changes.
    open spec fn effect(&self, state: MachineState, position: int, length: int) -> Result<
        Effect,
        EngineError,
    > {
        let parts = self.0;
        match (
            mov_cycles(parts.destination, parts.source),
            parts.source.value_in(parts.is_wide, state),
        ) {
            (Some(base), Some(value)) => match parts.destination.state_after_write(
                value,
                parts.is_wide,
                state,
            ) {
                Some(written) => Ok(
                    Effect {
                        state: written,
                        position,
                        cycles: base + penalty_cycles(parts, state),
                    },
                ),
                None => Err(EngineError::IllegalOperand),
            },
            _ => Err(EngineError::IllegalOperand),
        }
    }

    fn execute(&self, stream: &mut ByteStream, store: &mut Store) -> (outcome: Result<
        u32,
        EngineError,
    >) {
        let parts = self.0;
        let base: u32 = match self.num_cycles() {
            Some(cycles) => cycles,
            None => {
                return Err(EngineError::IllegalOperand);
            },
        };
        let (value, source_unaligned) = parts.source.to_immediate_value(parts.is_wide, store)?;
        let destination_unaligned: bool = parts.destination.is_unaligned(parts.is_wide, store);
        parts.destination.write_value(value, parts.is_wide, store)?;
        Ok(base + penalty_of(source_unaligned, destination_unaligned))
    }
}

} // verus!
