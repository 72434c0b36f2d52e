//! ADD: execution and timing.

use crate::cycle::{add_sub_cycles, add_sub_num_cycles, penalty_cycles, penalty_of};
use crate::error::EngineError;
use crate::flag_register::flags_after;
use crate::instructions::arithmetic::ArithmeticInstruction;
use crate::instructions::instruction::{AnyInstruction, Effect, Instruction};
use crate::instructions::operands::{add_result, Operand};
use crate::mode::InstructionMode;
use crate::store::{MachineState, Store};
use crate::stream::ByteStream;
use vstd::prelude::*;

verus! {

/// An ADD instruction.
#[derive(Clone, Copy, PartialEq, Eq, Structural, Debug)]
pub struct AddInstruction(pub AnyInstruction);

impl ArithmeticInstruction for AddInstruction {
    open spec fn parts(&self) -> AnyInstruction {
        self.0
    }

    fn new(
        is_wide: bool,
        mode: Option<InstructionMode>,
        source: Operand,
        destination: Operand,
    ) -> (instruction: Self) {
        AddInstruction(AnyInstruction { is_wide, mode, source, destination })
    }
}

impl AddInstruction {
    /// The cycles of the instruction by the kinds of its operands, before
    /// any penalty; nothing where ADD has no such pair of operands.
    pub fn num_cycles(&self) -> (cycles: Option<u32>)
        ensures
            cycles is Some == add_sub_cycles(self.0.destination, self.0.source) is Some,
            cycles matches Some(count) ==> count as int == add_sub_cycles(
                self.0.destination,
                self.0.source,
            ).unwrap(),
    {
        add_sub_num_cycles(self.0.destination, self.0.source)
    }
}

impl Instruction for AddInstruction {
    /// The destination receives the sum of destination and source, and the
    /// six arithmetic flags are replaced by those of the sum.
    open spec fn effect(&self, state: MachineState, position: int, length: int) -> Result<
        Effect,
        EngineError,
    > {
        let parts = self.0;
        match (
            add_sub_cycles(parts.destination, parts.source),
            parts.source.value_in(parts.is_wide, state),
            parts.destination.value_in(parts.is_wide, state),
        ) {
            (Some(base), Some(rhs), Some(lhs)) => {
                let result = add_result(lhs.as_int(), rhs.as_int());
                match parts.destination.state_after_write(result.value, parts.is_wide, state) {
                    Some(written) => Ok(
                        Effect {
                            state: MachineState {
                                flags: flags_after(written.flags, result),
                                ..written
                            },
                            position,
                            cycles: base + penalty_cycles(parts, state),
                        },
                    ),
                    None => Err(EngineError::IllegalOperand),
                }
            },
            _ => Err(EngineError::IllegalOperand),
        }
    }

    fn execute(&self, stream: &mut ByteStream, store: &mut Store) -> (outcome: Result<
        u32,
        EngineError,
    >) {
        let parts = self.0;
        let base: u32 = match self.num_cycles() {
            Some(cycles) => cycles,
            None => {
                return Err(EngineError::IllegalOperand);
            },
        };
        let (rhs, source_unaligned) = parts.source.to_immediate_value(parts.is_wide, store)?;
        let (lhs, destination_unaligned) = parts.destination.to_immediate_value(
            parts.is_wide,
            store,
        )?;
        let op_result = lhs.add(rhs);
        parts.destination.write_value(op_result.value(), parts.is_wide, store)?;
        store.flag_register_store_mut().set_flags_on_op(op_result);
        Ok(base + penalty_of(source_unaligned, destination_unaligned))
    }
}

} // verus!
