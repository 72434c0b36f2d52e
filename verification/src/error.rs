//! The ways in which decoding or executing an instruction can fail.

use vstd::prelude::*;

verus! {

/// A fatal condition met while decoding or executing.
#[derive(Clone, Copy, PartialEq, Eq, Structural, Debug)]
pub enum EngineError {
    /// The stream ended inside an instruction.
    TruncatedStream,
    /// No opcode pattern matched, or a group sub-opcode is not supported.
    InvalidOpcode,
    /// The operands cannot be combined in the requested way.
    IllegalOperand,
    /// A jump would leave the stream.
    OutOfBoundsJump,
}

impl EngineError {
    /// A short description for reports.
    pub fn message(&self) -> (text: &'static str)
        ensures
            text@ == match *self {
                EngineError::TruncatedStream => "truncated stream"@,
                EngineError::InvalidOpcode => "invalid opcode"@,
                EngineError::IllegalOperand => "illegal operand"@,
                EngineError::OutOfBoundsJump => "jump out of bounds"@,
            },
    {
        match self {
            EngineError::TruncatedStream => "truncated stream",
            EngineError::InvalidOpcode => "invalid opcode",
            EngineError::IllegalOperand => "illegal operand",
            EngineError::OutOfBoundsJump => "jump out of bounds",
        }
    }
}

} // verus!
