//! Properties that hold of every instruction and every machine state.

use crate::error::EngineError;
use crate::flag_register::{even_parity, flag_value, flags_after, FlagRegister};
use crate::helpers::signed8;
use crate::instructions::add::AddInstruction;
use crate::instructions::compare::CompareInstruction;
use crate::instructions::decode::{instruction_at, next_instruction, Instructions};
use crate::instructions::instruction::Instruction;
use crate::instructions::jump::{is_jump_opcode, lemma_jump_opcodes, JumpInstructions};
use crate::instructions::operands::{
    add_result, sub_result, wrap16, ArithmeticResult, ImmediateValue, Operand,
};
use crate::instructions::subtract::SubtractInstruction;
use crate::register::{register_byte, register_word, Register};
use crate::store::MachineState;
use vstd::prelude::*;

verus! {

/// An arithmetic operation replaces exactly the six arithmetic flags:
/// carry, auxiliary carry, overflow, zero and sign take the values of the
/// result, parity is set exactly when the low byte of the result has an
/// even number of one-bits, and trap, interrupt and direction keep their
/// values.
pub proof fn lemma_flags_after_operation(cells: Seq<bool>, result: ArithmeticResult)
    requires
        cells.len() == 16,
    ensures
        flag_value(flags_after(cells, result), FlagRegister::Carry) == result.carry,
        flag_value(flags_after(cells, result), FlagRegister::AuxiliaryCarry)
            == result.auxiliary_carry,
        flag_value(flags_after(cells, result), FlagRegister::Overflow) == result.overflow,
        flag_value(flags_after(cells, result), FlagRegister::Zero) == result.zero,
        flag_value(flags_after(cells, result), FlagRegister::Sign) == result.sign,
        flag_value(flags_after(cells, result), FlagRegister::Parity) == even_parity(
            result.value.as_int(),
        ),
        flag_value(flags_after(cells, result), FlagRegister::Trap) == flag_value(
            cells,
            FlagRegister::Trap,
        ),
        flag_value(flags_after(cells, result), FlagRegister::Interrupt) == flag_value(
            cells,
            FlagRegister::Interrupt,
        ),
        flag_value(flags_after(cells, result), FlagRegister::Direction) == flag_value(
            cells,
            FlagRegister::Direction,
        ),
{
}

/// After an ADD that executes, the flags are those of the sum of its
/// operands; the parity flag is set exactly when the low byte of the sum
/// has an even number of one-bits.
pub proof fn lemma_flags_after_add(
    instruction: AddInstruction,
    state: MachineState,
    position: int,
    length: int,
)
    requires
        state.wf(),
        instruction.effect(state, position, length) is Ok,
    ensures
        ({
            let parts = instruction.0;
            let lhs = parts.destination.value_in(parts.is_wide, state).unwrap().as_int();
            let rhs = parts.source.value_in(parts.is_wide, state).unwrap().as_int();
            let after = instruction.effect(state, position, length).unwrap().state;
            &&& after.flags == flags_after(state.flags, add_result(lhs, rhs))
            &&& flag_value(after.flags, FlagRegister::Parity) == even_parity(wrap16(lhs + rhs))
        }),
{
    let parts = instruction.0;
    let lhs = parts.destination.value_in(parts.is_wide, state).unwrap().as_int();
    let rhs = parts.source.value_in(parts.is_wide, state).unwrap().as_int();
    lemma_flags_after_operation(state.flags, add_result(lhs, rhs));
}

/// After a SUB that executes, the flags are those of the difference of
/// its operands; the parity flag is set exactly when the low byte of the
/// difference has an even number of one-bits.
pub proof fn lemma_flags_after_sub(
    instruction: SubtractInstruction,
    state: MachineState,
    position: int,
    length: int,
)
    requires
        state.wf(),
        instruction.effect(state, position, length) is Ok,
    ensures
        ({
            let parts = instruction.0;
            let lhs = parts.destination.value_in(parts.is_wide, state).unwrap().as_int();
            let rhs = parts.source.value_in(parts.is_wide, state).unwrap().as_int();
            let after = instruction.effect(state, position, length).unwrap().state;
            &&& after.flags == flags_after(state.flags, sub_result(lhs, rhs))
            &&& flag_value(after.flags, FlagRegister::Parity) == even_parity(wrap16(lhs - rhs))
        }),
{
    let parts = instruction.0;
    let lhs = parts.destination.value_in(parts.is_wide, state).unwrap().as_int();
    let rhs = parts.source.value_in(parts.is_wide, state).unwrap().as_int();
    lemma_flags_after_operation(state.flags, sub_result(lhs, rhs));
}

/// A CMP that executes changes nothing but the flags, which become those
/// of the difference of its operands, parity set exactly when the low byte
/// of the difference has an even number of one-bits: registers, segment
/// registers, memory and the stream position stay, and so does the value
/// read through any operand at any width.
pub proof fn lemma_compare_preserves_data(
    instruction: CompareInstruction,
    state: MachineState,
    position: int,
    length: int,
    operand: Operand,
    is_wide: bool,
)
    requires
        state.wf(),
        instruction.effect(state, position, length) is Ok,
    ensures
        ({
            let parts = instruction.0;
            let lhs = parts.destination.value_in(parts.is_wide, state).unwrap().as_int();
            let rhs = parts.source.value_in(parts.is_wide, state).unwrap().as_int();
            let effect = instruction.effect(state, position, length).unwrap();
            &&& effect.state.registers == state.registers
            &&& effect.state.segments == state.segments
            &&& effect.state.memory == state.memory
            &&& effect.state.flags == flags_after(state.flags, sub_result(lhs, rhs))
            &&& flag_value(effect.state.flags, FlagRegister::Parity) == even_parity(
                wrap16(lhs - rhs),
            )
            &&& effect.position == position
            &&& operand.value_in(is_wide, effect.state) == operand.value_in(is_wide, state)
        }),
{
    let parts = instruction.0;
    let lhs = parts.destination.value_in(parts.is_wide, state).unwrap().as_int();
    let rhs = parts.source.value_in(parts.is_wide, state).unwrap().as_int();
    lemma_flags_after_operation(state.flags, sub_result(lhs, rhs));
}

/// A jump opcode at offset `start`, followed by its displacement, decodes
/// to a jump that carries that displacement and ends two bytes later.
/// Executed there, it leaves the stream at `start + 2 + displacement`
/// when its condition holds and at `start + 2` when it does not; it fails
/// exactly when that position lies outside the stream.
pub proof fn lemma_jump_semantics(bytes: Seq<u8>, start: int, state: MachineState)
    requires
        0 <= start,
        start + 2 <= bytes.len(),
        is_jump_opcode(bytes[start]),
    ensures
        ({
            let displacement = signed8(bytes[start + 1] as int);
            &&& next_instruction(bytes, start) matches Ok(Some((Instructions::Jump(jump), after)))
            &&& after == start + 2
            &&& jump.offset() as int == displacement
            &&& {
                let landing = if jump.taken(state) {
                    start + 2 + displacement
                } else {
                    start + 2
                };
                match jump.effect(state, after, bytes.len() as int) {
                    Ok(effect) => effect.position == landing && 0 <= landing <= bytes.len()
                        && effect.cycles == 16,
                    Err(error) => error == EngineError::OutOfBoundsJump && !(0 <= landing
                        <= bytes.len()),
                }
            }
        }),
{
    reveal(instruction_at);
    lemma_jump_opcodes(bytes[start], signed8(bytes[start + 1] as int) as i8);
}

/// After a LOOP, LOOPE or LOOPNE that executes, CX holds its earlier
/// value minus one modulo 65536, whether or not the jump was taken; every
/// other byte of the machine is as before. Any other jump, JCXZ among
/// them, leaves the whole machine as it was.
pub proof fn lemma_loop_decrements_counter(
    jump: JumpInstructions,
    state: MachineState,
    position: int,
    length: int,
)
    requires
        state.wf(),
        jump.effect(state, position, length) is Ok,
    ensures
        ({
            let after = jump.effect(state, position, length).unwrap().state;
            if jump is Loop || jump is LoopWhileZeroOrEqual || jump is LoopWhileNotZeroAndNotEqual {
                &&& register_word(after.registers, Register::Cx) == (register_word(
                    state.registers,
                    Register::Cx,
                ) - 1) % 65536
                &&& forall|i: int|
                    0 <= i < 16 && i != 4 && i != 5 ==> after.registers[i] == state.registers[i]
                &&& after.flags == state.flags
                &&& after.segments == state.segments
                &&& after.memory == state.memory
            } else {
                after == state
            }
        }),
{
}

/// A byte written to one half of a word register through a register
/// operand leaves the other half as it was.
pub proof fn lemma_byte_operand_keeps_sibling(
    register: Register,
    value: i8,
    state: MachineState,
)
    requires
        state.wf(),
        register.high_half() is Some,
    ensures
        ({
            let high = register.high_half().unwrap();
            let low = register.low_half().unwrap();
            let value = ImmediateValue::SignedByte(value);
            &&& Operand::Register(high).state_after_write(value, false, state) matches Some(after)
                && register_byte(after.registers, low) == register_byte(state.registers, low)
            &&& Operand::Register(low).state_after_write(value, false, state) matches Some(after)
                && register_byte(after.registers, high) == register_byte(state.registers, high)
            &&& Operand::Accumulator.state_after_write(value, false, state) matches Some(after)
                && register_byte(after.registers, Register::Ah) == register_byte(
                state.registers,
                Register::Ah,
            )
        }),
{
}

/// A word cannot be written to a byte target: not to AL, not to a byte
/// register, not to a byte of memory; and nothing can be written to an
/// immediate.
pub proof fn lemma_illegal_writes(
    destination: Operand,
    value: ImmediateValue,
    is_wide: bool,
    state: MachineState,
)
    ensures
        value is SignedWord && destination is Accumulator ==> destination.state_after_write(
            value,
            is_wide,
            state,
        ) is None,
        value is SignedWord && !is_wide && (destination is Register || destination is Memory)
            ==> destination.state_after_write(value, is_wide, state) is None,
        destination is Immediate ==> destination.state_after_write(value, is_wide, state) is None,
{
}

} // verus!
