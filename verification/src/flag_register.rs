//! The flag register: nine status bits.

use crate::helpers::{signed_to_word, unsigned16};
use crate::instructions::operands::ArithmeticResult;
use crate::memory::Memory;
use vstd::prelude::*;

verus! {

/// The flag register.
#[derive(Debug)]
pub struct FlagRegisterManager {
    memory: [bool; 16],
}

/// A status flag.
#[derive(Clone, Copy, PartialEq, Eq, Structural, Debug)]
pub enum FlagRegister {
    Carry,
    Parity,
    AuxiliaryCarry,
    Zero,
    Sign,
    Trap,
    Interrupt,
    Direction,
    Overflow,
}

/// The number of one-bits in a byte.
pub open spec fn popcount8(byte: int) -> int {
    byte % 2 + (byte / 2) % 2 + (byte / 4) % 2 + (byte / 8) % 2 + (byte / 16) % 2 + (byte / 32) % 2
        + (byte / 64) % 2 + (byte / 128) % 2
}

/// The parity flag of a result: set when the low byte of its 16-bit pattern
/// has an even number of one-bits.
pub open spec fn even_parity(value: int) -> bool {
    popcount8(unsigned16(value) % 256) % 2 == 0
}

/// The value of `flag` in a flag store.
pub open spec fn flag_value(cells: Seq<bool>, flag: FlagRegister) -> bool {
    cells[flag.address()]
}

/// The flag store after `flag` is given `value`.
pub open spec fn with_flag(cells: Seq<bool>, flag: FlagRegister, value: bool) -> Seq<bool> {
    cells.update(flag.address(), value)
}

/// The flag store after an arithmetic operation: the six arithmetic flags
/// are replaced, every other cell is kept.
pub open spec fn flags_after(cells: Seq<bool>, result: ArithmeticResult) -> Seq<bool> {
    cells.update(FlagRegister::Parity.address(), even_parity(result.value.as_int())).update(
        FlagRegister::Carry.address(),
        result.carry,
    ).update(FlagRegister::Overflow.address(), result.overflow).update(
        FlagRegister::Zero.address(),
        result.zero,
    ).update(FlagRegister::Sign.address(), result.sign).update(
        FlagRegister::AuxiliaryCarry.address(),
        result.auxiliary_carry,
    )
}

/// The flag at position `index` of a flag dump.
pub open spec fn dump_flag(index: int) -> FlagRegister {
    if index == 0 {
        FlagRegister::Carry
    } else if index == 1 {
        FlagRegister::Parity
    } else if index == 2 {
        FlagRegister::AuxiliaryCarry
    } else if index == 3 {
        FlagRegister::Zero
    } else if index == 4 {
        FlagRegister::Sign
    } else if index == 5 {
        FlagRegister::Trap
    } else if index == 6 {
        FlagRegister::Interrupt
    } else if index == 7 {
        FlagRegister::Direction
    } else {
        FlagRegister::Overflow
    }
}

impl FlagRegister {
    /// The cell of the flag in the flag store.
    pub open spec fn address(self) -> int {
        match self {
            FlagRegister::Carry => 0,
            FlagRegister::Parity => 2,
            FlagRegister::AuxiliaryCarry => 4,
            FlagRegister::Zero => 6,
            FlagRegister::Sign => 7,
            FlagRegister::Trap => 8,
            FlagRegister::Interrupt => 9,
            FlagRegister::Direction => 10,
            FlagRegister::Overflow => 11,
        }
    }

    /// The name of the flag in a flag dump.
    pub open spec fn name(self) -> Seq<char> {
        match self {
            FlagRegister::Carry => "carry"@,
            FlagRegister::Parity => "parity"@,
            FlagRegister::AuxiliaryCarry => "auxiliaryCarry"@,
            FlagRegister::Zero => "zero"@,
            FlagRegister::Sign => "sign"@,
            FlagRegister::Trap => "trap"@,
            FlagRegister::Interrupt => "interrupt"@,
            FlagRegister::Direction => "direction"@,
            FlagRegister::Overflow => "overflow"@,
        }
    }

    /// The two-letter abbreviation of the flag.
    pub open spec fn short_name(self) -> Seq<char> {
        match self {
            FlagRegister::Carry => "CF"@,
            FlagRegister::Parity => "PF"@,
            FlagRegister::AuxiliaryCarry => "AF"@,
            FlagRegister::Zero => "ZF"@,
            FlagRegister::Sign => "SF"@,
            FlagRegister::Trap => "TF"@,
            FlagRegister::Interrupt => "IF"@,
            FlagRegister::Direction => "DF"@,
            FlagRegister::Overflow => "OF"@,
        }
    }

    /// The cell of the flag in the flag store.
    pub fn to_memory_address(self) -> (address: u16)
        ensures
            address as int == self.address(),
            address < 16,
    {
        match self {
            FlagRegister::Carry => 0,
            FlagRegister::Parity => 2,
            FlagRegister::AuxiliaryCarry => 4,
            FlagRegister::Zero => 6,
            FlagRegister::Sign => 7,
            FlagRegister::Trap => 8,
            FlagRegister::Interrupt => 9,
            FlagRegister::Direction => 10,
            FlagRegister::Overflow => 11,
        }
    }

    /// The two-letter abbreviation of the flag.
    pub fn abbreviation(self) -> (text: &'static str)
        ensures
            text@ == self.short_name(),
    {
        match self {
            FlagRegister::Carry => "CF",
            FlagRegister::Parity => "PF",
            FlagRegister::AuxiliaryCarry => "AF",
            FlagRegister::Zero => "ZF",
            FlagRegister::Sign => "SF",
            FlagRegister::Trap => "TF",
            FlagRegister::Interrupt => "IF",
            FlagRegister::Direction => "DF",
            FlagRegister::Overflow => "OF",
        }
    }
}

impl Memory<bool, 16> for FlagRegisterManager {
    closed spec fn cells(&self) -> Seq<bool> {
        self.memory@
    }

    proof fn lemma_size(&self) {
    }

    fn get_memory_mut(&mut self) -> (memory: &mut [bool; 16]) {
        &mut self.memory
    }

    fn get_memory(&self) -> (memory: &[bool; 16]) {
        &self.memory
    }
}

/// Whether the low byte of the pattern of `value` has an even number of
/// one-bits.
fn has_even_parity(value: i16) -> (even: bool)
    ensures
        even == even_parity(value as int),
{
    let low: u16 = signed_to_word(value) % 256;
    let ones: u16 = low % 2 + (low / 2) % 2 + (low / 4) % 2 + (low / 8) % 2 + (low / 16) % 2 + (low
        / 32) % 2 + (low / 64) % 2 + (low / 128) % 2;
    ones % 2 == 0
}

impl FlagRegisterManager {
    /// A flag register with every flag clear.
    pub fn new() -> (flags: Self)
        ensures
            flags.cells() == Seq::new(16, |i: int| false),
    {
        let flags = FlagRegisterManager { memory: [false; 16] };
        assert(flags.cells() =~= Seq::new(16, |i: int| false));
        flags
    }

    /// The value of `flag`.
    pub fn get_flag(&self, flag: FlagRegister) -> (value: bool)
        ensures
            value == flag_value(self.cells(), flag),
    {
        self.get_memory()[flag.to_memory_address() as usize]
    }

    /// Sets `flag`.
    pub fn set_flag(&mut self, flag: FlagRegister)
        ensures
            final(self).cells() == with_flag(old(self).cells(), flag, true),
    {
        let address: usize = flag.to_memory_address() as usize;
        let memory = self.get_memory_mut();
        memory[address] = true;
    }

    /// Clears `flag`.
    pub fn unset_flag(&mut self, flag: FlagRegister)
        ensures
            final(self).cells() == with_flag(old(self).cells(), flag, false),
    {
        let address: usize = flag.to_memory_address() as usize;
        let memory = self.get_memory_mut();
        memory[address] = false;
    }

    fn assign_flag(&mut self, flag: FlagRegister, value: bool)
        ensures
            final(self).cells() == with_flag(old(self).cells(), flag, value),
    {
        if value {
            self.set_flag(flag);
        } else {
            self.unset_flag(flag);
        }
    }

    /// Replaces the six arithmetic flags by those of `result`. The parity
    /// flag is computed here, from the low byte of the result.
    pub fn set_flags_on_op(&mut self, result: ArithmeticResult)
        ensures
            final(self).cells() == flags_after(old(self).cells(), result),
    {
        let value: i16 = result.value().to_signed_word();
        self.assign_flag(FlagRegister::Parity, has_even_parity(value));
        self.assign_flag(FlagRegister::Carry, result.carry);
        self.assign_flag(FlagRegister::Overflow, result.overflow);
        self.assign_flag(FlagRegister::Zero, result.zero);
        self.assign_flag(FlagRegister::Sign, result.sign);
        self.assign_flag(FlagRegister::AuxiliaryCarry, result.auxiliary_carry);
    }

    /// The nine flags with their values, in the order carry, parity,
    /// auxiliary carry, zero, sign, trap, interrupt, direction, overflow.
    pub fn flag_register_memory_map(&self) -> (map: Vec<(&'static str, bool)>)
        ensures
            map@.len() == 9,
            forall|i: int|
                0 <= i < 9 ==> (#[trigger] map@[i]).0@ == dump_flag(i).name() && map@[i].1
                    == flag_value(self.cells(), dump_flag(i)),
    {
        let mut map: Vec<(&'static str, bool)> = Vec::new();
        map.push(("carry", self.get_flag(FlagRegister::Carry)));
        map.push(("parity", self.get_flag(FlagRegister::Parity)));
        map.push(("auxiliaryCarry", self.get_flag(FlagRegister::AuxiliaryCarry)));
        map.push(("zero", self.get_flag(FlagRegister::Zero)));
        map.push(("sign", self.get_flag(FlagRegister::Sign)));
        map.push(("trap", self.get_flag(FlagRegister::Trap)));
        map.push(("interrupt", self.get_flag(FlagRegister::Interrupt)));
        map.push(("direction", self.get_flag(FlagRegister::Direction)));
        map.push(("overflow", self.get_flag(FlagRegister::Overflow)));
        map
    }
}

impl Default for FlagRegisterManager {
    fn default() -> (store: Self)
        ensures
            store.cells() == Seq::new(16, |i: int| false),
    {
        FlagRegisterManager::new()
    }
}

} // verus!
