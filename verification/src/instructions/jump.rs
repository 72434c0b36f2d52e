//! Conditional jumps and loops.

use crate::error::EngineError;
use crate::flag_register::{flag_value, FlagRegister};
use crate::helpers::Bit::{Any, One, Zero};
use crate::helpers::{bit_match, matches_pattern, signed8};
use crate::instructions::instruction::{Effect, Instruction};
use crate::register::{register_word, with_register_word, Register};
use crate::store::{MachineState, Store};
use crate::stream::ByteStream;
use vstd::prelude::*;

verus! {

/// A conditional jump or loop with its signed 8-bit displacement, which is
/// relative to the byte that follows the instruction.
#[derive(Clone, Copy, PartialEq, Eq, Structural, Debug)]
pub enum JumpInstructions {
    JumpOnEqualOrZero(i8),
    JumpOnLess(i8),
    JumpOnLessOrEqual(i8),
    JumpOnBelow(i8),
    JumpOnBelowOrEqual(i8),
    JumpOnParityEven(i8),
    JumpOnOverflow(i8),
    JumpOnSign(i8),
    JumpOnNotEqualAndNotZero(i8),
    JumpOnNotLess(i8),
    JumpOnNotLessAndNotEqual(i8),
    JumpOnNotBelow(i8),
    JumpOnNotBelowAndNotEqual(i8),
    JumpOnParityOdd(i8),
    JumpOnNotOverflow(i8),
    JumpOnNotSign(i8),
    Loop(i8),
    LoopWhileZeroOrEqual(i8),
    LoopWhileNotZeroAndNotEqual(i8),
    JumpOnCxZero(i8),
}

/// Whether an opcode byte belongs to the conditional jumps and loops.
pub open spec fn is_jump_opcode(opcode: u8) -> bool {
    matches_pattern(opcode, [Zero, One, One, One, Any, Any, Any, Any]) || matches_pattern(
        opcode,
        [One, One, One, Zero, Zero, Zero, Any, Any],
    )
}

/// The jump that an opcode byte selects, with its displacement.
pub open spec fn jump_of(opcode: u8, displacement: i8) -> Option<JumpInstructions> {
    if opcode == 0x74 {
        Some(JumpInstructions::JumpOnEqualOrZero(displacement))
    } else if opcode == 0x7C {
        Some(JumpInstructions::JumpOnLess(displacement))
    } else if opcode == 0x7E {
        Some(JumpInstructions::JumpOnLessOrEqual(displacement))
    } else if opcode == 0x72 {
        Some(JumpInstructions::JumpOnBelow(displacement))
    } else if opcode == 0x76 {
        Some(JumpInstructions::JumpOnBelowOrEqual(displacement))
    } else if opcode == 0x7A {
        Some(JumpInstructions::JumpOnParityEven(displacement))
    } else if opcode == 0x70 {
        Some(JumpInstructions::JumpOnOverflow(displacement))
    } else if opcode == 0x78 {
        Some(JumpInstructions::JumpOnSign(displacement))
    } else if opcode == 0x75 {
        Some(JumpInstructions::JumpOnNotEqualAndNotZero(displacement))
    } else if opcode == 0x7D {
        Some(JumpInstructions::JumpOnNotLess(displacement))
    } else if opcode == 0x7F {
        Some(JumpInstructions::JumpOnNotLessAndNotEqual(displacement))
    } else if opcode == 0x73 {
        Some(JumpInstructions::JumpOnNotBelow(displacement))
    } else if opcode == 0x77 {
        Some(JumpInstructions::JumpOnNotBelowAndNotEqual(displacement))
    } else if opcode == 0x7B {
        Some(JumpInstructions::JumpOnParityOdd(displacement))
    } else if opcode == 0x71 {
        Some(JumpInstructions::JumpOnNotOverflow(displacement))
    } else if opcode == 0x79 {
        Some(JumpInstructions::JumpOnNotSign(displacement))
    } else if opcode == 0xE2 {
        Some(JumpInstructions::Loop(displacement))
    } else if opcode == 0xE1 {
        Some(JumpInstructions::LoopWhileZeroOrEqual(displacement))
    } else if opcode == 0xE0 {
        Some(JumpInstructions::LoopWhileNotZeroAndNotEqual(displacement))
    } else if opcode == 0xE3 {
        Some(JumpInstructions::JumpOnCxZero(displacement))
    } else {
        None
    }
}

/// The jump whose opcode byte is `opcode` and whose displacement is read
/// at `position`, with the position after it.
pub open spec fn jump_at(bytes: Seq<u8>, position: int, opcode: u8) -> Result<
    (JumpInstructions, int),
    EngineError,
> {
    if !is_jump_opcode(opcode) {
        Err(EngineError::InvalidOpcode)
    } else if position < bytes.len() {
        Ok((jump_of(opcode, signed8(bytes[position] as int) as i8).unwrap(), position + 1))
    } else {
        Err(EngineError::TruncatedStream)
    }
}

/// The jump opcodes are the bytes 0x70 to 0x7F and 0xE0 to 0xE3, and each
/// of them selects a jump.
pub proof fn lemma_jump_opcodes(opcode: u8, displacement: i8)
    ensures
        is_jump_opcode(opcode) <==> (0x70 <= opcode <= 0x7F || 0xE0 <= opcode <= 0xE3),
        is_jump_opcode(opcode) <==> jump_of(opcode, displacement) is Some,
{
}

impl JumpInstructions {
    /// The displacement that the instruction carries.
    pub open spec fn offset(self) -> i8 {
        match self {
            JumpInstructions::JumpOnEqualOrZero(d) => d,
            JumpInstructions::JumpOnLess(d) => d,
            JumpInstructions::JumpOnLessOrEqual(d) => d,
            JumpInstructions::JumpOnBelow(d) => d,
            JumpInstructions::JumpOnBelowOrEqual(d) => d,
            JumpInstructions::JumpOnParityEven(d) => d,
            JumpInstructions::JumpOnOverflow(d) => d,
            JumpInstructions::JumpOnSign(d) => d,
            JumpInstructions::JumpOnNotEqualAndNotZero(d) => d,
            JumpInstructions::JumpOnNotLess(d) => d,
            JumpInstructions::JumpOnNotLessAndNotEqual(d) => d,
            JumpInstructions::JumpOnNotBelow(d) => d,
            JumpInstructions::JumpOnNotBelowAndNotEqual(d) => d,
            JumpInstructions::JumpOnParityOdd(d) => d,
            JumpInstructions::JumpOnNotOverflow(d) => d,
            JumpInstructions::JumpOnNotSign(d) => d,
            JumpInstructions::Loop(d) => d,
            JumpInstructions::LoopWhileZeroOrEqual(d) => d,
            JumpInstructions::LoopWhileNotZeroAndNotEqual(d) => d,
            JumpInstructions::JumpOnCxZero(d) => d,
        }
    }

    /// Whether the instruction decrements CX before it decides.
    pub open spec fn decrements_counter(self) -> bool {
        self is Loop || self is LoopWhileZeroOrEqual || self is LoopWhileNotZeroAndNotEqual
    }

    /// The value of CX, as a 16-bit pattern, after the instruction: one
    /// less modulo 65536 for the three loop forms, unchanged otherwise.
    pub open spec fn counter_after(self, registers: Seq<u8>) -> int {
        if self.decrements_counter() {
            (register_word(registers, Register::Cx) - 1) % 65536
        } else {
            register_word(registers, Register::Cx)
        }
    }

    /// Whether the jump is taken from a machine in `state`. The loop forms
    /// test CX as it is after their decrement.
    pub open spec fn taken(self, state: MachineState) -> bool {
        let carry = flag_value(state.flags, FlagRegister::Carry);
        let zero = flag_value(state.flags, FlagRegister::Zero);
        let sign = flag_value(state.flags, FlagRegister::Sign);
        let overflow = flag_value(state.flags, FlagRegister::Overflow);
        let parity = flag_value(state.flags, FlagRegister::Parity);
        let counter = self.counter_after(state.registers);
        match self {
            JumpInstructions::JumpOnEqualOrZero(_) => zero,
            JumpInstructions::JumpOnLess(_) => sign != overflow,
            JumpInstructions::JumpOnLessOrEqual(_) => sign != overflow || zero,
            JumpInstructions::JumpOnBelow(_) => carry,
            JumpInstructions::JumpOnBelowOrEqual(_) => carry || zero,
            JumpInstructions::JumpOnParityEven(_) => parity,
            JumpInstructions::JumpOnOverflow(_) => overflow,
            JumpInstructions::JumpOnSign(_) => sign,
            JumpInstructions::JumpOnNotEqualAndNotZero(_) => !zero,
            JumpInstructions::JumpOnNotLess(_) => !(sign != overflow),
            JumpInstructions::JumpOnNotLessAndNotEqual(_) => !(sign != overflow || zero),
            JumpInstructions::JumpOnNotBelow(_) => !carry,
            JumpInstructions::JumpOnNotBelowAndNotEqual(_) => !carry && !zero,
            JumpInstructions::JumpOnParityOdd(_) => !parity,
            JumpInstructions::JumpOnNotOverflow(_) => !overflow,
            JumpInstructions::JumpOnNotSign(_) => !sign,
            JumpInstructions::Loop(_) => counter != 0,
            JumpInstructions::LoopWhileZeroOrEqual(_) => counter != 0 && zero,
            JumpInstructions::LoopWhileNotZeroAndNotEqual(_) => counter != 0 && !zero,
            JumpInstructions::JumpOnCxZero(_) => counter == 0,
        }
    }

    /// The position of the stream after the instruction: moved by the
    /// displacement when the jump is taken.
    pub open spec fn target(self, state: MachineState, position: int) -> int {
        if self.taken(state) {
            position + self.offset() as int
        } else {
            position
        }
    }

    /// Whether `value` is the opcode of a conditional jump or loop.
    pub fn is_jump_instruction(value: u8) -> (is_jump: bool)
        ensures
            is_jump == is_jump_opcode(value),
    {
        bit_match(value, [Zero, One, One, One, Any, Any, Any, Any]) || bit_match(
            value,
            [One, One, One, Zero, Zero, Zero, Any, Any],
        )
    }

    /// Decodes the jump whose opcode byte has been read. On failure the
    /// stream keeps its position.
    pub fn read(stream: &mut ByteStream, value: u8) -> (outcome: Result<
        JumpInstructions,
        EngineError,
    >)
        ensures
            final(stream).bytes() == old(stream).bytes(),
            match jump_at(old(stream).bytes(), old(stream).pos(), value) {
                Ok((jump, position)) => outcome == Ok::<JumpInstructions, EngineError>(jump)
                    && final(stream).pos() == position,
                Err(error) => outcome == Err::<JumpInstructions, EngineError>(error) && final(
                    stream
                ).pos() == old(stream).pos(),
            },
    {
        if !JumpInstructions::is_jump_instruction(value) {
            return Err(EngineError::InvalidOpcode);
        }
        let displacement: i8 = stream.read_i8()?;
        proof {
            lemma_jump_opcodes(value, displacement);
        }
        let jump = if value == 0x74 {
            JumpInstructions::JumpOnEqualOrZero(displacement)
        } else if value == 0x7C {
            JumpInstructions::JumpOnLess(displacement)
        } else if value == 0x7E {
            JumpInstructions::JumpOnLessOrEqual(displacement)
        } else if value == 0x72 {
            JumpInstructions::JumpOnBelow(displacement)
        } else if value == 0x76 {
            JumpInstructions::JumpOnBelowOrEqual(displacement)
        } else if value == 0x7A {
            JumpInstructions::JumpOnParityEven(displacement)
        } else if value == 0x70 {
            JumpInstructions::JumpOnOverflow(displacement)
        } else if value == 0x78 {
            JumpInstructions::JumpOnSign(displacement)
        } else if value == 0x75 {
            JumpInstructions::JumpOnNotEqualAndNotZero(displacement)
        } else if value == 0x7D {
            JumpInstructions::JumpOnNotLess(displacement)
        } else if value == 0x7F {
            JumpInstructions::JumpOnNotLessAndNotEqual(displacement)
        } else if value == 0x73 {
            JumpInstructions::JumpOnNotBelow(displacement)
        } else if value == 0x77 {
            JumpInstructions::JumpOnNotBelowAndNotEqual(displacement)
        } else if value == 0x7B {
            JumpInstructions::JumpOnParityOdd(displacement)
        } else if value == 0x71 {
            JumpInstructions::JumpOnNotOverflow(displacement)
        } else if value == 0x79 {
            JumpInstructions::JumpOnNotSign(displacement)
        } else if value == 0xE2 {
            JumpInstructions::Loop(displacement)
        } else if value == 0xE1 {
            JumpInstructions::LoopWhileZeroOrEqual(displacement)
        } else if value == 0xE0 {
            JumpInstructions::LoopWhileNotZeroAndNotEqual(displacement)
        } else {
            JumpInstructions::JumpOnCxZero(displacement)
        };
        Ok(jump)
    }

    /// The displacement that the instruction carries.
    pub fn displacement(&self) -> (displacement: i8)
        ensures
            displacement == self.offset(),
    {
        match self {
            JumpInstructions::JumpOnEqualOrZero(d) => *d,
            JumpInstructions::JumpOnLess(d) => *d,
            JumpInstructions::JumpOnLessOrEqual(d) => *d,
            JumpInstructions::JumpOnBelow(d) => *d,
            JumpInstructions::JumpOnBelowOrEqual(d) => *d,
            JumpInstructions::JumpOnParityEven(d) => *d,
            JumpInstructions::JumpOnOverflow(d) => *d,
            JumpInstructions::JumpOnSign(d) => *d,
            JumpInstructions::JumpOnNotEqualAndNotZero(d) => *d,
            JumpInstructions::JumpOnNotLess(d) => *d,
            JumpInstructions::JumpOnNotLessAndNotEqual(d) => *d,
            JumpInstructions::JumpOnNotBelow(d) => *d,
            JumpInstructions::JumpOnNotBelowAndNotEqual(d) => *d,
            JumpInstructions::JumpOnParityOdd(d) => *d,
            JumpInstructions::JumpOnNotOverflow(d) => *d,
            JumpInstructions::JumpOnNotSign(d) => *d,
            JumpInstructions::Loop(d) => *d,
            JumpInstructions::LoopWhileZeroOrEqual(d) => *d,
            JumpInstructions::LoopWhileNotZeroAndNotEqual(d) => *d,
            JumpInstructions::JumpOnCxZero(d) => *d,
        }
    }

    /// The cycle cost of a jump or loop, taken or not.
    pub fn num_cycles(&self) -> (cycles: u32)
        ensures
            cycles == 16,
    {
        16
    }

    /// Evaluates the jump's condition on the flags and on CX as it will be
    /// after the instruction.
    fn should_jump(&self, store: &Store, counter: u16) -> (jump: bool)
        requires
            counter as int == self.counter_after(store@.registers),
        ensures
            jump == self.taken(store@),
    {
        let flags = store.flag_register_store();
        let carry: bool = flags.get_flag(FlagRegister::Carry);
        let zero: bool = flags.get_flag(FlagRegister::Zero);
        let sign: bool = flags.get_flag(FlagRegister::Sign);
        let overflow: bool = flags.get_flag(FlagRegister::Overflow);
        let parity: bool = flags.get_flag(FlagRegister::Parity);
        match self {
            JumpInstructions::JumpOnEqualOrZero(_) => zero,
            JumpInstructions::JumpOnLess(_) => sign ^ overflow,
            JumpInstructions::JumpOnLessOrEqual(_) => (sign ^ overflow) || zero,
            JumpInstructions::JumpOnBelow(_) => carry,
            JumpInstructions::JumpOnBelowOrEqual(_) => carry || zero,
            JumpInstructions::JumpOnParityEven(_) => parity,
            JumpInstructions::JumpOnOverflow(_) => overflow,
            JumpInstructions::JumpOnSign(_) => sign,
            JumpInstructions::JumpOnNotEqualAndNotZero(_) => !zero,
            JumpInstructions::JumpOnNotLess(_) => !(sign ^ overflow),
            JumpInstructions::JumpOnNotLessAndNotEqual(_) => !((sign ^ overflow) || zero),
            JumpInstructions::JumpOnNotBelow(_) => !carry,
            JumpInstructions::JumpOnNotBelowAndNotEqual(_) => !carry && !zero,
            JumpInstructions::JumpOnParityOdd(_) => !parity,
            JumpInstructions::JumpOnNotOverflow(_) => !overflow,
            JumpInstructions::JumpOnNotSign(_) => !sign,
            JumpInstructions::Loop(_) => counter != 0,
            JumpInstructions::LoopWhileZeroOrEqual(_) => counter != 0 && zero,
            JumpInstructions::LoopWhileNotZeroAndNotEqual(_) => counter != 0 && !zero,
            JumpInstructions::JumpOnCxZero(_) => counter == 0,
        }
    }
}

impl Instruction for JumpInstructions {
    /// A loop form decrements CX whether or not it jumps. The jump fails
    /// when taken to a target before the start or past the end of the
    /// stream.
    open spec fn effect(&self, state: MachineState, position: int, length: int) -> Result<
        Effect,
        EngineError,
    > {
        let target = self.target(state, position);
        if 0 <= target <= length {
            Ok(
                Effect {
                    state: if self.decrements_counter() {
                        MachineState {
                            registers: with_register_word(
                                state.registers,
                                Register::Cx,
                                self.counter_after(state.registers) as u16,
                            ),
                            ..state
                        }
                    } else {
                        state
                    },
                    position: target,
                    cycles: 16,
                },
            )
        } else {
            Err(EngineError::OutOfBoundsJump)
        }
    }

    fn execute(&self, stream: &mut ByteStream, store: &mut Store) -> (outcome: Result<
        u32,
        EngineError,
    >) {
        let position: usize = stream.stream_position();
        let current: u16 = store.register_store().read_word_from_register(Register::Cx);
        let decrements: bool = match self {
            JumpInstructions::Loop(_) => true,
            JumpInstructions::LoopWhileZeroOrEqual(_) => true,
            JumpInstructions::LoopWhileNotZeroAndNotEqual(_) => true,
            _ => false,
        };
        let counter: u16 = if !decrements {
            current
        } else if current == 0 {
            65535
        } else {
            current - 1
        };
        if self.should_jump(store, counter) {
            stream.seek_relative(self.displacement() as i64)?;
        }
        if decrements {
            store.register_store_mut().write_word_to_register(Register::Cx, counter);
        }
        Ok(self.num_cycles())
    }
}

} // verus!
