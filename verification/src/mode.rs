//! The addressing mode held in the two high bits of a MOD/REG/RM byte.

use crate::helpers::{bit_match, bit_of, Bit};
use vstd::prelude::*;

verus! {

/// Addressing mode of a register/memory operand.
#[derive(Clone, Copy, PartialEq, Eq, Structural, Debug)]
pub enum InstructionMode {
    /// MOD = 11: the operand is a register.
    Register,
    /// MOD = 00: memory without displacement (or a direct address).
    Memory,
    /// MOD = 01: memory with a signed 8-bit displacement.
    MemoryPlusByte,
    /// MOD = 10: memory with a signed 16-bit displacement.
    MemoryPlusWord,
}

/// The mode selected by bits 7 and 6 of `value`.
pub open spec fn mode_of(value: u8) -> InstructionMode {
    let high = bit_of(value, 7) == 1;
    let low = bit_of(value, 6) == 1;
    if high && low {
        InstructionMode::Register
    } else if !high && !low {
        InstructionMode::Memory
    } else if low {
        InstructionMode::MemoryPlusByte
    } else {
        InstructionMode::MemoryPlusWord
    }
}

impl InstructionMode {
    /// Reads the mode from the two high bits of a MOD/REG/RM byte.
    pub fn from_byte(value: u8) -> (mode: InstructionMode)
        ensures
            mode == mode_of(value),
    {
        let high: bool = bit_match(
            value,
            [Bit::One, Bit::Any, Bit::Any, Bit::Any, Bit::Any, Bit::Any, Bit::Any, Bit::Any],
        );
        let low: bool = bit_match(
            value,
            [Bit::Any, Bit::One, Bit::Any, Bit::Any, Bit::Any, Bit::Any, Bit::Any, Bit::Any],
        );
        if high && low {
            InstructionMode::Register
        } else if !high && !low {
            InstructionMode::Memory
        } else if low {
            InstructionMode::MemoryPlusByte
        } else {
            InstructionMode::MemoryPlusWord
        }
    }
}

impl From<u8> for InstructionMode {
    /// Reads the mode from the two high bits of a MOD/REG/RM byte.
    fn from(value: u8) -> (mode: InstructionMode) {
        InstructionMode::from_byte(value)
    }
}

impl vstd::std_specs::convert::FromSpecImpl<u8> for InstructionMode {
    open spec fn obeys_from_spec() -> bool {
        true
    }

    open spec fn from_spec(value: u8) -> InstructionMode {
        mode_of(value)
    }
}

} // verus!
