//! The general register file: sixteen bytes, read as eight words or as
//! byte halves.

use crate::helpers::{byte_to_signed, signed16, signed8, word_to_signed};
use crate::instructions::operands::ImmediateValue;
use crate::memory::{store_word, word_at, ByteMemory, Memory};
use vstd::prelude::*;

verus! {

/// The general register file.
#[derive(Debug)]
pub struct RegisterManager {
    memory: [u8; 16],
}

/// A general register, in the order of the 4-bit register selector
/// `(REG << 1) | W`.
#[derive(Clone, Copy, PartialEq, Eq, Structural, Debug)]
pub enum Register {
    Al,
    Ax,
    Cl,
    Cx,
    Dl,
    Dx,
    Bl,
    Bx,
    Ah,
    Sp,
    Ch,
    Bp,
    Dh,
    Si,
    Bh,
    Di,
}

/// The register selected by a 4-bit selector.
pub open spec fn register_of_index(index: int) -> Register {
    if index == 0 {
        Register::Al
    } else if index == 1 {
        Register::Ax
    } else if index == 2 {
        Register::Cl
    } else if index == 3 {
        Register::Cx
    } else if index == 4 {
        Register::Dl
    } else if index == 5 {
        Register::Dx
    } else if index == 6 {
        Register::Bl
    } else if index == 7 {
        Register::Bx
    } else if index == 8 {
        Register::Ah
    } else if index == 9 {
        Register::Sp
    } else if index == 10 {
        Register::Ch
    } else if index == 11 {
        Register::Bp
    } else if index == 12 {
        Register::Dh
    } else if index == 13 {
        Register::Si
    } else if index == 14 {
        Register::Bh
    } else {
        Register::Di
    }
}

/// The byte held by `register` in a register file.
pub open spec fn register_byte(cells: Seq<u8>, register: Register) -> int {
    cells[register.address()] as int
}

/// The word held at the place of `register` in a register file.
pub open spec fn register_word(cells: Seq<u8>, register: Register) -> int {
    word_at(cells, register.address())
}

/// The register file after a byte is written to `register`.
pub open spec fn with_register_byte(cells: Seq<u8>, register: Register, value: u8) -> Seq<u8> {
    cells.update(register.address(), value)
}

/// The register file after a word is written at the place of `register`.
pub open spec fn with_register_word(cells: Seq<u8>, register: Register, value: u16) -> Seq<u8> {
    store_word(cells, register.address(), value as int)
}

/// The value of `register`, tagged by the register's own width.
pub open spec fn register_value(cells: Seq<u8>, register: Register) -> ImmediateValue {
    if register.is_word() {
        ImmediateValue::SignedWord(signed16(register_word(cells, register)) as i16)
    } else {
        ImmediateValue::SignedByte(signed8(register_byte(cells, register)) as i8)
    }
}

impl Register {
    /// Whether the register is sixteen bits wide.
    pub open spec fn is_word(self) -> bool {
        match self {
            Register::Ax
            | Register::Bx
            | Register::Cx
            | Register::Dx
            | Register::Sp
            | Register::Bp
            | Register::Si
            | Register::Di => true,
            _ => false,
        }
    }

    /// The offset of the register in the register file. A word register
    /// shares its offset with its high half.
    pub open spec fn address(self) -> int {
        match self {
            Register::Ax | Register::Ah => 0,
            Register::Al => 1,
            Register::Bx | Register::Bh => 2,
            Register::Bl => 3,
            Register::Cx | Register::Ch => 4,
            Register::Cl => 5,
            Register::Dx | Register::Dh => 6,
            Register::Dl => 7,
            Register::Sp => 8,
            Register::Bp => 10,
            Register::Si => 12,
            Register::Di => 14,
        }
    }

    /// The high half of a word register that has byte halves.
    pub open spec fn high_half(self) -> Option<Register> {
        match self {
            Register::Ax => Some(Register::Ah),
            Register::Bx => Some(Register::Bh),
            Register::Cx => Some(Register::Ch),
            Register::Dx => Some(Register::Dh),
            _ => None,
        }
    }

    /// The low half of a word register that has byte halves.
    pub open spec fn low_half(self) -> Option<Register> {
        match self {
            Register::Ax => Some(Register::Al),
            Register::Bx => Some(Register::Bl),
            Register::Cx => Some(Register::Cl),
            Register::Dx => Some(Register::Dl),
            _ => None,
        }
    }

    /// The lowercase mnemonic of the register.
    pub open spec fn name(self) -> Seq<char> {
        match self {
            Register::Al => "al"@,
            Register::Ax => "ax"@,
            Register::Cl => "cl"@,
            Register::Cx => "cx"@,
            Register::Dl => "dl"@,
            Register::Dx => "dx"@,
            Register::Bl => "bl"@,
            Register::Bx => "bx"@,
            Register::Ah => "ah"@,
            Register::Sp => "sp"@,
            Register::Ch => "ch"@,
            Register::Bp => "bp"@,
            Register::Dh => "dh"@,
            Register::Si => "si"@,
            Register::Bh => "bh"@,
            Register::Di => "di"@,
        }
    }

    /// Selects a register by the low four bits of `value`.
    pub fn from_byte(value: u8) -> (register: Register)
        ensures
            register == register_of_index(value as int % 16),
    {
        let index: u8 = value % 16;
        if index == 0 {
            Register::Al
        } else if index == 1 {
            Register::Ax
        } else if index == 2 {
            Register::Cl
        } else if index == 3 {
            Register::Cx
        } else if index == 4 {
            Register::Dl
        } else if index == 5 {
            Register::Dx
        } else if index == 6 {
            Register::Bl
        } else if index == 7 {
            Register::Bx
        } else if index == 8 {
            Register::Ah
        } else if index == 9 {
            Register::Sp
        } else if index == 10 {
            Register::Ch
        } else if index == 11 {
            Register::Bp
        } else if index == 12 {
            Register::Dh
        } else if index == 13 {
            Register::Si
        } else if index == 14 {
            Register::Bh
        } else {
            Register::Di
        }
    }

    /// Whether the register is sixteen bits wide.
    pub fn is_wide(self) -> (wide: bool)
        ensures
            wide == self.is_word(),
    {
        match self {
            Register::Ax
            | Register::Bx
            | Register::Cx
            | Register::Dx
            | Register::Sp
            | Register::Bp
            | Register::Si
            | Register::Di => true,
            _ => false,
        }
    }

    /// The offset of the register in the register file.
    pub fn to_memory_address(self) -> (address: u16)
        ensures
            address as int == self.address(),
            address < 16,
    {
        match self {
            Register::Ax | Register::Ah => 0,
            Register::Al => 1,
            Register::Bx | Register::Bh => 2,
            Register::Bl => 3,
            Register::Cx | Register::Ch => 4,
            Register::Cl => 5,
            Register::Dx | Register::Dh => 6,
            Register::Dl => 7,
            Register::Sp => 8,
            Register::Bp => 10,
            Register::Si => 12,
            Register::Di => 14,
        }
    }

    /// The lowercase mnemonic of the register.
    pub fn mnemonic(self) -> (text: &'static str)
        ensures
            text@ == self.name(),
    {
        match self {
            Register::Al => "al",
            Register::Ax => "ax",
            Register::Cl => "cl",
            Register::Cx => "cx",
            Register::Dl => "dl",
            Register::Dx => "dx",
            Register::Bl => "bl",
            Register::Bx => "bx",
            Register::Ah => "ah",
            Register::Sp => "sp",
            Register::Ch => "ch",
            Register::Bp => "bp",
            Register::Dh => "dh",
            Register::Si => "si",
            Register::Bh => "bh",
            Register::Di => "di",
        }
    }
}

impl From<u8> for Register {
    /// Selects a register by the low four bits of `value`.
    fn from(value: u8) -> (register: Register) {
        Register::from_byte(value)
    }
}

impl vstd::std_specs::convert::FromSpecImpl<u8> for Register {
    open spec fn obeys_from_spec() -> bool {
        true
    }

    open spec fn from_spec(value: u8) -> Register {
        register_of_index(value as int % 16)
    }
}

impl Memory<u8, 16> for RegisterManager {
    closed spec fn cells(&self) -> Seq<u8> {
        self.memory@
    }

    proof fn lemma_size(&self) {
    }

    fn get_memory_mut(&mut self) -> (memory: &mut [u8; 16]) {
        &mut self.memory
    }

    fn get_memory(&self) -> (memory: &[u8; 16]) {
        &self.memory
    }
}

impl RegisterManager {
    /// A register file with every byte zero.
    pub fn new() -> (registers: Self)
        ensures
            registers.cells() == Seq::new(16, |i: int| 0u8),
    {
        let registers = RegisterManager { memory: [0u8; 16] };
        assert(registers.cells() =~= Seq::new(16, |i: int| 0u8));
        registers
    }

    /// The value of `register`, tagged signed byte for a byte register and
    /// signed word for a word register.
    pub fn read_value(&self, register: Register) -> (value: ImmediateValue)
        ensures
            value == register_value(self.cells(), register),
    {
        if register.is_wide() {
            ImmediateValue::SignedWord(word_to_signed(self.read_word_from_register(register)))
        } else {
            ImmediateValue::SignedByte(byte_to_signed(self.read_byte_from_register(register)))
        }
    }

    /// The byte at the offset of `register`.
    pub fn read_byte_from_register(&self, register: Register) -> (value: u8)
        ensures
            value as int == register_byte(self.cells(), register),
    {
        self.read_byte(register.to_memory_address())
    }

    /// The word at the offset of `register`.
    pub fn read_word_from_register(&self, register: Register) -> (value: u16)
        ensures
            value as int == register_word(self.cells(), register),
    {
        self.read_word(register.to_memory_address())
    }

    /// Stores a byte at the offset of `register`.
    pub fn write_byte_to_register(&mut self, register: Register, value: u8)
        ensures
            final(self).cells() == with_register_byte(old(self).cells(), register, value),
    {
        self.write_byte(register.to_memory_address(), value);
    }

    /// Stores a word at the offset of `register`.
    pub fn write_word_to_register(&mut self, register: Register, value: u16)
        ensures
            final(self).cells() == with_register_word(old(self).cells(), register, value),
    {
        self.write_word(register.to_memory_address(), value);
    }

    /// The eight word registers with their signed values, in the order
    /// AX, BX, CX, DX, SP, BP, SI, DI.
    pub fn register_memory_map(&self) -> (map: Vec<(&'static str, i16)>)
        ensures
            map@.len() == 8,
            forall|i: int|
                0 <= i < 8 ==> (#[trigger] map@[i]).0@ == dump_register(i).name() && map@[i].1
                    as int == signed16(register_word(self.cells(), dump_register(i))),
    {
        let mut map: Vec<(&'static str, i16)> = Vec::new();
        map.push(("ax", word_to_signed(self.read_word_from_register(Register::Ax))));
        map.push(("bx", word_to_signed(self.read_word_from_register(Register::Bx))));
        map.push(("cx", word_to_signed(self.read_word_from_register(Register::Cx))));
        map.push(("dx", word_to_signed(self.read_word_from_register(Register::Dx))));
        map.push(("sp", word_to_signed(self.read_word_from_register(Register::Sp))));
        map.push(("bp", word_to_signed(self.read_word_from_register(Register::Bp))));
        map.push(("si", word_to_signed(self.read_word_from_register(Register::Si))));
        map.push(("di", word_to_signed(self.read_word_from_register(Register::Di))));
        map
    }
}

/// The word register at position `index` of a register dump.
pub open spec fn dump_register(index: int) -> Register {
    if index == 0 {
        Register::Ax
    } else if index == 1 {
        Register::Bx
    } else if index == 2 {
        Register::Cx
    } else if index == 3 {
        Register::Dx
    } else if index == 4 {
        Register::Sp
    } else if index == 5 {
        Register::Bp
    } else if index == 6 {
        Register::Si
    } else {
        Register::Di
    }
}

/// After a word is written to a register with byte halves, the high half
/// reads the word's high byte and the low half its low byte.
pub proof fn lemma_word_write_sets_halves(cells: Seq<u8>, register: Register, value: u16)
    requires
        cells.len() == 16,
        register.high_half() is Some,
    ensures
        register_byte(
            with_register_word(cells, register, value),
            register.high_half().unwrap(),
        ) == value as int / 256,
        register_byte(with_register_word(cells, register, value), register.low_half().unwrap())
            == value as int % 256,
{
}

/// After a byte is written to each half of a word register, the register
/// reads as the high byte times 256 plus the low byte.
pub proof fn lemma_half_writes_set_word(cells: Seq<u8>, register: Register, high: u8, low: u8)
    requires
        cells.len() == 16,
        register.high_half() is Some,
    ensures
        register_word(
            with_register_byte(
                with_register_byte(cells, register.high_half().unwrap(), high),
                register.low_half().unwrap(),
                low,
            ),
            register,
        ) == high as int * 256 + low as int,
{
}

/// Writing a byte to one half of a word register leaves the other half as
/// it was.
pub proof fn lemma_byte_write_keeps_sibling(cells: Seq<u8>, register: Register, value: u8)
    requires
        cells.len() == 16,
        register.high_half() is Some,
    ensures
        register_byte(
            with_register_byte(cells, register.high_half().unwrap(), value),
            register.low_half().unwrap(),
        ) == register_byte(cells, register.low_half().unwrap()),
        register_byte(
            with_register_byte(cells, register.low_half().unwrap(), value),
            register.high_half().unwrap(),
        ) == register_byte(cells, register.high_half().unwrap()),
{
}

impl Default for RegisterManager {
    fn default() -> (store: Self)
        ensures
            store.cells() == Seq::new(16, |i: int| 0u8),
    {
        RegisterManager::new()
    }
}

} // verus!
