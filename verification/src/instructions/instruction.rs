//! The parts that every two-operand instruction carries, and what
//! executing an instruction means.

use crate::error::EngineError;
use crate::instructions::operands::Operand;
use crate::mode::InstructionMode;
use crate::store::{MachineState, Store};
use crate::stream::ByteStream;
use vstd::prelude::*;

verus! {

/// The operands of an instruction, its width and the addressing mode it
/// was decoded with, where it has a MOD/REG/RM byte.
#[derive(Clone, Copy, PartialEq, Eq, Structural, Debug)]
pub struct AnyInstruction {
    pub is_wide: bool,
    pub mode: Option<InstructionMode>,
    pub source: Operand,
    pub destination: Operand,
}

/// What one executed instruction leaves behind.
pub struct Effect {
    /// The machine state after the instruction.
    pub state: MachineState,
    /// The stream position after the instruction.
    pub position: int,
    /// The estimated cycle cost of the instruction.
    pub cycles: int,
}

/// An instruction that can be applied to a machine.
pub trait Instruction {
    /// The effect of the instruction on a machine in `state`, fetched from
    /// a stream of `length` bytes that stands at `position` once the
    /// instruction has been decoded; or the reason why it cannot execute.
    spec fn effect(&self, state: MachineState, position: int, length: int) -> Result<
        Effect,
        EngineError,
    >;

    /// Applies the instruction and returns its cycle cost. An instruction
    /// that fails leaves the machine and the stream as they were.
    fn execute(&self, stream: &mut ByteStream, store: &mut Store) -> (outcome: Result<
        u32,
        EngineError,
    >)
        ensures
            final(stream).bytes() == old(stream).bytes(),
            match self.effect(old(store)@, old(stream).pos(), old(stream).bytes().len() as int) {
                Ok(effect) => {
                    &&& outcome matches Ok(cycles)
                    &&& cycles as int == effect.cycles
                    &&& final(store)@ == effect.state
                    &&& final(stream).pos() == effect.position
                },
                Err(error) => {
                    &&& outcome == Err::<u32, EngineError>(error)
                    &&& final(store)@ == old(store)@
                    &&& final(stream).pos() == old(stream).pos()
                },
            },
    ;
}

} // verus!
