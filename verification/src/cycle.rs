//! The cycle-cost table.

use crate::instructions::instruction::AnyInstruction;
use crate::instructions::operands::Operand;
use crate::store::MachineState;
use vstd::prelude::*;

verus! {

/// The cycles of a MOV by the kinds of its operands, or nothing where the
/// pair is not one that MOV has.
pub open spec fn mov_cycles(destination: Operand, source: Operand) -> Option<int> {
    match (destination, source) {
        (
            Operand::Register(_) | Operand::SegmentRegister(_),
            Operand::Register(_) | Operand::SegmentRegister(_),
        ) => Some(2),
        (Operand::Memory(address), Operand::Register(_) | Operand::SegmentRegister(_)) => Some(
            9 + address.cycles(),
        ),
        (Operand::Register(_) | Operand::SegmentRegister(_), Operand::Memory(address)) => Some(
            8 + address.cycles(),
        ),
        (Operand::Register(_), Operand::Immediate(_)) => Some(4),
        (Operand::Memory(address), Operand::Immediate(_)) => Some(10 + address.cycles()),
        (Operand::Accumulator | Operand::AccumulatorWide, Operand::Memory(_)) => Some(10),
        (Operand::Memory(_), Operand::Accumulator | Operand::AccumulatorWide) => Some(10),
        _ => None,
    }
}

/// The cycles of an ADD or a SUB by the kinds of its operands, or nothing
/// where the pair is not one that they have.
pub open spec fn add_sub_cycles(destination: Operand, source: Operand) -> Option<int> {
    match (destination, source) {
        (Operand::Register(_), Operand::Register(_)) => Some(3),
        (Operand::Register(_), Operand::Memory(address)) => Some(9 + address.cycles()),
        (Operand::Memory(address), Operand::Register(_)) => Some(16 + address.cycles()),
        (Operand::Register(_), Operand::Immediate(_)) => Some(4),
        (Operand::Memory(address), Operand::Immediate(_)) => Some(17 + address.cycles()),
        (Operand::Accumulator | Operand::AccumulatorWide, Operand::Immediate(_)) => Some(4),
        _ => None,
    }
}

/// The cycles of a CMP by the kinds of its operands, or nothing where the
/// pair is not one that CMP has.
pub open spec fn compare_cycles(destination: Operand, source: Operand) -> Option<int> {
    match (destination, source) {
        (Operand::Register(_), Operand::Register(_)) => Some(3),
        (Operand::Register(_), Operand::Memory(address)) => Some(9 + address.cycles()),
        (Operand::Memory(address), Operand::Register(_)) => Some(9 + address.cycles()),
        (Operand::Register(_), Operand::Immediate(_)) => Some(4),
        (Operand::Memory(address), Operand::Immediate(_)) => Some(10 + address.cycles()),
        (Operand::Accumulator | Operand::AccumulatorWide, Operand::Immediate(_)) => Some(4),
        _ => None,
    }
}

/// The cycles added for unaligned word accesses: four for each memory
/// operand that accesses a word at an odd address.
pub open spec fn penalty_cycles(parts: AnyInstruction, state: MachineState) -> int {
    (if parts.source.unaligned_in(parts.is_wide, state) {
        4int
    } else {
        0int
    }) + (if parts.destination.unaligned_in(parts.is_wide, state) {
        4int
    } else {
        0int
    })
}

/// The cycles of a MOV by the kinds of its operands.
pub fn mov_num_cycles(destination: Operand, source: Operand) -> (cycles: Option<u32>)
    ensures
        cycles is Some == mov_cycles(destination, source) is Some,
        cycles matches Some(count) ==> count as int == mov_cycles(destination, source).unwrap()
            && count <= 22,
{
    match (destination, source) {
        (
            Operand::Register(_) | Operand::SegmentRegister(_),
            Operand::Register(_) | Operand::SegmentRegister(_),
        ) => Some(2),
        (Operand::Memory(address), Operand::Register(_) | Operand::SegmentRegister(_)) => Some(
            9 + address.num_cycles(),
        ),
        (Operand::Register(_) | Operand::SegmentRegister(_), Operand::Memory(address)) => Some(
            8 + address.num_cycles(),
        ),
        (Operand::Register(_), Operand::Immediate(_)) => Some(4),
        (Operand::Memory(address), Operand::Immediate(_)) => Some(10 + address.num_cycles()),
        (Operand::Accumulator | Operand::AccumulatorWide, Operand::Memory(_)) => Some(10),
        (Operand::Memory(_), Operand::Accumulator | Operand::AccumulatorWide) => Some(10),
        _ => None,
    }
}

/// The cycles of an ADD or a SUB by the kinds of its operands.
pub fn add_sub_num_cycles(destination: Operand, source: Operand) -> (cycles: Option<u32>)
    ensures
        cycles is Some == add_sub_cycles(destination, source) is Some,
        cycles matches Some(count) ==> count as int == add_sub_cycles(
            destination,
            source,
        ).unwrap() && count <= 29,
{
    match (destination, source) {
        (Operand::Register(_), Operand::Register(_)) => Some(3),
        (Operand::Register(_), Operand::Memory(address)) => Some(9 + address.num_cycles()),
        (Operand::Memory(address), Operand::Register(_)) => Some(16 + address.num_cycles()),
        (Operand::Register(_), Operand::Immediate(_)) => Some(4),
        (Operand::Memory(address), Operand::Immediate(_)) => Some(17 + address.num_cycles()),
        (Operand::Accumulator | Operand::AccumulatorWide, Operand::Immediate(_)) => Some(4),
        _ => None,
    }
}

/// The cycles of a CMP by the kinds of its operands.
pub fn compare_num_cycles(destination: Operand, source: Operand) -> (cycles: Option<u32>)
    ensures
        cycles is Some == compare_cycles(destination, source) is Some,
        cycles matches Some(count) ==> count as int == compare_cycles(
            destination,
            source,
        ).unwrap() && count <= 22,
{
    match (destination, source) {
        (Operand::Register(_), Operand::Register(_)) => Some(3),
        (Operand::Register(_), Operand::Memory(address)) => Some(9 + address.num_cycles()),
        (Operand::Memory(address), Operand::Register(_)) => Some(9 + address.num_cycles()),
        (Operand::Register(_), Operand::Immediate(_)) => Some(4),
        (Operand::Memory(address), Operand::Immediate(_)) => Some(10 + address.num_cycles()),
        (Operand::Accumulator | Operand::AccumulatorWide, Operand::Immediate(_)) => Some(4),
        _ => None,
    }
}

/// The cycles charged for two accesses, four for each unaligned one.
pub fn penalty_of(source_unaligned: bool, destination_unaligned: bool) -> (cycles: u32)
    ensures
        cycles as int == (if source_unaligned {
            4int
        } else {
            0int
        }) + (if destination_unaligned {
            4int
        } else {
            0int
        }),
{
    let source: u32 = if source_unaligned {
        4
    } else {
        0
    };
    let destination: u32 = if destination_unaligned {
        4
    } else {
        0
    };
    source + destination
}

} // verus!
