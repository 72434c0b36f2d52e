//! The instruction set: classification of opcode bytes and dispatch.

use crate::cycle::{add_sub_cycles, compare_cycles, mov_cycles};
use crate::error::EngineError;
use crate::helpers::Bit::{Any, One, Zero};
use crate::helpers::{bit_match, matches_pattern};
use crate::instructions::add::AddInstruction;
use crate::instructions::arithmetic::{arithmetic_at, reg_field, ArithmeticInstruction};
use crate::instructions::compare::CompareInstruction;
use crate::instructions::instruction::{Effect, Instruction};
use crate::instructions::jump::{is_jump_opcode, jump_at, JumpInstructions};
use crate::instructions::mov::{mov_at, mov_kind, MovInstruction};
use crate::instructions::subtract::SubtractInstruction;
use crate::store::{MachineState, Store};
use crate::stream::ByteStream;
use vstd::prelude::*;

verus! {

/// A decoded instruction.
#[derive(Clone, Copy, PartialEq, Eq, Structural, Debug)]
pub enum Instructions {
    Mov(MovInstruction),
    Add(AddInstruction),
    Sub(SubtractInstruction),
    Cmp(CompareInstruction),
    Jump(JumpInstructions),
}

/// The families that a first byte can select.
#[derive(Clone, Copy, PartialEq, Eq, Structural, Debug)]
pub enum OpcodeFamily {
    Mov,
    Add,
    Sub,
    Compare,
    /// ADD, SUB or CMP of an immediate: the REG field of the next byte
    /// tells which.
    ImmediateGroup,
    Jump,
}

/// The family of an opcode byte, if it has one.
pub open spec fn opcode_family(opcode: u8) -> Option<OpcodeFamily> {
    if mov_kind(opcode) is Some {
        Some(OpcodeFamily::Mov)
    } else if matches_pattern(opcode, [Zero, Zero, Zero, Zero, Zero, Zero, Any, Any])
        || matches_pattern(opcode, [Zero, Zero, Zero, Zero, Zero, One, Zero, Any]) {
        Some(OpcodeFamily::Add)
    } else if matches_pattern(opcode, [Zero, Zero, One, Zero, One, Zero, Any, Any])
        || matches_pattern(opcode, [Zero, Zero, One, Zero, One, One, Zero, Any]) {
        Some(OpcodeFamily::Sub)
    } else if matches_pattern(opcode, [Zero, Zero, One, One, One, Zero, Any, Any])
        || matches_pattern(opcode, [Zero, Zero, One, One, One, One, Zero, Any]) {
        Some(OpcodeFamily::Compare)
    } else if matches_pattern(opcode, [One, Zero, Zero, Zero, Zero, Zero, Any, Any]) {
        Some(OpcodeFamily::ImmediateGroup)
    } else if is_jump_opcode(opcode) {
        Some(OpcodeFamily::Jump)
    } else {
        None
    }
}

/// The member of the immediate group that the REG field of the byte after
/// the opcode selects: 000 is ADD, 101 is SUB, 111 is CMP.
pub open spec fn group_member(target: u8) -> Option<OpcodeFamily> {
    if reg_field(target) == 0 {
        Some(OpcodeFamily::Add)
    } else if reg_field(target) == 5 {
        Some(OpcodeFamily::Sub)
    } else if reg_field(target) == 7 {
        Some(OpcodeFamily::Compare)
    } else {
        None
    }
}

/// The arithmetic instruction of the given family decoded at `position`.
pub open spec fn arithmetic_member_at(
    family: OpcodeFamily,
    bytes: Seq<u8>,
    position: int,
    opcode: u8,
) -> Result<(Instructions, int), EngineError> {
    match arithmetic_at(bytes, position, opcode) {
        Ok((parts, after)) => Ok(
            (
                match family {
                    OpcodeFamily::Add => Instructions::Add(AddInstruction(parts)),
                    OpcodeFamily::Sub => Instructions::Sub(SubtractInstruction(parts)),
                    _ => Instructions::Cmp(CompareInstruction(parts)),
                },
                after,
            ),
        ),
        Err(error) => Err(error),
    }
}

/// The instruction whose first byte is `opcode` and whose remaining bytes
/// start at `position`, with the position after it. Fails with an invalid
/// opcode where the first byte has no family or the immediate group has no
/// such member, and with a truncated stream where the bytes end inside the
/// instruction.
#[verifier::opaque]
pub open spec fn instruction_at(bytes: Seq<u8>, position: int, opcode: u8) -> Result<
    (Instructions, int),
    EngineError,
> {
    match opcode_family(opcode) {
        None => Err(EngineError::InvalidOpcode),
        Some(OpcodeFamily::Mov) => match mov_at(bytes, position, opcode) {
            Ok((parts, after)) => Ok((Instructions::Mov(MovInstruction(parts)), after)),
            Err(error) => Err(error),
        },
        Some(OpcodeFamily::Jump) => match jump_at(bytes, position, opcode) {
            Ok((jump, after)) => Ok((Instructions::Jump(jump), after)),
            Err(error) => Err(error),
        },
        Some(OpcodeFamily::ImmediateGroup) => if position >= bytes.len() {
            Err(EngineError::TruncatedStream)
        } else {
            match group_member(bytes[position]) {
                Some(member) => arithmetic_member_at(member, bytes, position, opcode),
                None => Err(EngineError::InvalidOpcode),
            }
        },
        Some(family) => arithmetic_member_at(family, bytes, position, opcode),
    }
}

/// The instruction that starts at `position`, with the position after it;
/// or nothing at the end of the stream.
pub open spec fn next_instruction(bytes: Seq<u8>, position: int) -> Result<
    Option<(Instructions, int)>,
    EngineError,
> {
    if position >= bytes.len() {
        Ok(None)
    } else {
        match instruction_at(bytes, position + 1, bytes[position]) {
            Ok(decoded) => Ok(Some(decoded)),
            Err(error) => Err(error),
        }
    }
}

/// An instruction takes between one and six bytes, its first byte
/// included, and ends inside the stream.
pub proof fn lemma_instruction_bounds(bytes: Seq<u8>, position: int, opcode: u8)
    requires
        0 <= position <= bytes.len(),
    ensures
        instruction_at(bytes, position, opcode) matches Ok((_, after)) ==> position <= after
            <= bytes.len() && after <= position + 5,
{
    reveal(instruction_at);
}

fn family_of(value: u8) -> (family: Option<OpcodeFamily>)
    ensures
        family == opcode_family(value),
{
    if bit_match(value, [One, Zero, Zero, Zero, One, Zero, Any, Any]) || bit_match(
        value,
        [One, Zero, Zero, Zero, One, One, Any, Any],
    ) || bit_match(value, [One, One, Zero, Zero, Zero, One, One, Any]) || bit_match(
        value,
        [One, Zero, One, One, Any, Any, Any, Any],
    ) || bit_match(value, [One, Zero, One, Zero, Zero, Zero, Any, Any]) {
        Some(OpcodeFamily::Mov)
    } else if bit_match(value, [Zero, Zero, Zero, Zero, Zero, Zero, Any, Any]) || bit_match(
        value,
        [Zero, Zero, Zero, Zero, Zero, One, Zero, Any],
    ) {
        Some(OpcodeFamily::Add)
    } else if bit_match(value, [Zero, Zero, One, Zero, One, Zero, Any, Any]) || bit_match(
        value,
        [Zero, Zero, One, Zero, One, One, Zero, Any],
    ) {
        Some(OpcodeFamily::Sub)
    } else if bit_match(value, [Zero, Zero, One, One, One, Zero, Any, Any]) || bit_match(
        value,
        [Zero, Zero, One, One, One, One, Zero, Any],
    ) {
        Some(OpcodeFamily::Compare)
    } else if bit_match(value, [One, Zero, Zero, Zero, Zero, Zero, Any, Any]) {
        Some(OpcodeFamily::ImmediateGroup)
    } else if JumpInstructions::is_jump_instruction(value) {
        Some(OpcodeFamily::Jump)
    } else {
        None
    }
}

fn member_of(target: u8) -> (member: Option<OpcodeFamily>)
    ensures
        member == group_member(target),
{
    if bit_match(target, [Any, Any, Zero, Zero, Zero, Any, Any, Any]) {
        Some(OpcodeFamily::Add)
    } else if bit_match(target, [Any, Any, One, Zero, One, Any, Any, Any]) {
        Some(OpcodeFamily::Sub)
    } else if bit_match(target, [Any, Any, One, One, One, Any, Any, Any]) {
        Some(OpcodeFamily::Compare)
    } else {
        None
    }
}

fn read_member(family: OpcodeFamily, stream: &mut ByteStream, value: u8) -> (outcome: Result<
    Instructions,
    EngineError,
>)
    ensures
        final(stream).bytes() == old(stream).bytes(),
        match arithmetic_member_at(family, old(stream).bytes(), old(stream).pos(), value) {
            Ok((instruction, position)) => outcome == Ok::<Instructions, EngineError>(instruction)
                && final(stream).pos() == position,
            Err(error) => outcome == Err::<Instructions, EngineError>(error) && final(
                stream
            ).pos() == old(stream).pos(),
        },
{
    match family {
        OpcodeFamily::Add => Ok(Instructions::Add(AddInstruction::read(stream, value)?)),
        OpcodeFamily::Sub => Ok(Instructions::Sub(SubtractInstruction::read(stream, value)?)),
        _ => Ok(Instructions::Cmp(CompareInstruction::read(stream, value)?)),
    }
}

impl Instructions {
    /// Decodes the instruction whose first byte, `value`, has been read.
    /// On failure the stream keeps its position.
    pub fn read(stream: &mut ByteStream, value: u8) -> (outcome: Result<Instructions, EngineError>)
        ensures
            final(stream).bytes() == old(stream).bytes(),
            match instruction_at(old(stream).bytes(), old(stream).pos(), value) {
                Ok((instruction, position)) => outcome == Ok::<Instructions, EngineError>(
                    instruction,
                ) && final(stream).pos() == position,
                Err(error) => outcome == Err::<Instructions, EngineError>(error) && final(
                    stream
                ).pos() == old(stream).pos(),
            },
    {
        proof {
            reveal(instruction_at);
        }
        match family_of(value) {
            None => Err(EngineError::InvalidOpcode),
            Some(OpcodeFamily::Mov) => Ok(Instructions::Mov(MovInstruction::read(stream, value)?)),
            Some(OpcodeFamily::Jump) => Ok(
                Instructions::Jump(JumpInstructions::read(stream, value)?),
            ),
            Some(OpcodeFamily::ImmediateGroup) => {
                let target: u8 = stream.peek_u8()?;
                match member_of(target) {
                    Some(member) => read_member(member, stream, value),
                    None => Err(EngineError::InvalidOpcode),
                }
            },
            Some(family) => read_member(family, stream, value),
        }
    }

    /// Decodes the instruction at the read position; gives nothing, and
    /// reads nothing, at the end of the stream. On failure the stream
    /// keeps its position.
    pub fn decode_one(stream: &mut ByteStream) -> (outcome: Result<
        Option<Instructions>,
        EngineError,
    >)
        ensures
            final(stream).bytes() == old(stream).bytes(),
            match next_instruction(old(stream).bytes(), old(stream).pos()) {
                Ok(Some((instruction, position))) => outcome == Ok::<
                    Option<Instructions>,
                    EngineError,
                >(Some(instruction)) && final(stream).pos() == position,
                Ok(None) => outcome == Ok::<Option<Instructions>, EngineError>(None) && final(
                    stream
                ).pos() == old(stream).pos(),
                Err(error) => outcome == Err::<Option<Instructions>, EngineError>(error) && final(
                    stream
                ).pos() == old(stream).pos(),
            },
    {
        let start: usize = stream.stream_position();
        let value: u8 = match stream.read_u8() {
            Ok(value) => value,
            Err(_) => {
                return Ok(None);
            },
        };
        match Instructions::read(stream, value) {
            Ok(instruction) => Ok(Some(instruction)),
            Err(error) => {
                stream.rewind(start);
                Err(error)
            },
        }
    }

    /// The cycles of the instruction by the kinds of its operands, before
    /// any penalty; nothing where the instruction has no such pair of
    /// operands.
    pub open spec fn base_cycles(self) -> Option<int> {
        match self {
            Instructions::Mov(instruction) => mov_cycles(
                instruction.0.destination,
                instruction.0.source,
            ),
            Instructions::Add(instruction) => add_sub_cycles(
                instruction.0.destination,
                instruction.0.source,
            ),
            Instructions::Sub(instruction) => add_sub_cycles(
                instruction.0.destination,
                instruction.0.source,
            ),
            Instructions::Cmp(instruction) => compare_cycles(
                instruction.0.destination,
                instruction.0.source,
            ),
            Instructions::Jump(_) => Some(16),
        }
    }

    /// The cycles of the instruction by the kinds of its operands, before
    /// any penalty; nothing where the instruction has no such pair of
    /// operands.
    pub fn num_cycles(&self) -> (cycles: Option<u32>)
        ensures
            cycles is Some == self.base_cycles() is Some,
            cycles matches Some(count) ==> count as int == self.base_cycles().unwrap(),
    {
        match self {
            Instructions::Mov(instruction) => instruction.num_cycles(),
            Instructions::Add(instruction) => instruction.num_cycles(),
            Instructions::Sub(instruction) => instruction.num_cycles(),
            Instructions::Cmp(instruction) => instruction.num_cycles(),
            Instructions::Jump(instruction) => Some(instruction.num_cycles()),
        }
    }
}

impl Instruction for Instructions {
    open spec fn effect(&self, state: MachineState, position: int, length: int) -> Result<
        Effect,
        EngineError,
    > {
        match *self {
            Instructions::Mov(instruction) => instruction.effect(state, position, length),
            Instructions::Add(instruction) => instruction.effect(state, position, length),
            Instructions::Sub(instruction) => instruction.effect(state, position, length),
            Instructions::Cmp(instruction) => instruction.effect(state, position, length),
            Instructions::Jump(instruction) => instruction.effect(state, position, length),
        }
    }

    fn execute(&self, stream: &mut ByteStream, store: &mut Store) -> (outcome: Result<
        u32,
        EngineError,
    >) {
        match self {
            Instructions::Mov(instruction) => instruction.execute(stream, store),
            Instructions::Add(instruction) => instruction.execute(stream, store),
            Instructions::Sub(instruction) => instruction.execute(stream, store),
            Instructions::Cmp(instruction) => instruction.execute(stream, store),
            Instructions::Jump(instruction) => instruction.execute(stream, store),
        }
    }
}

} // verus!
