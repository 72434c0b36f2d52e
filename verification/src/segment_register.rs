//! The segment register file: four words in a store of their own.

use crate::memory::{store_word, word_at, ByteMemory, Memory};
use vstd::prelude::*;

verus! {

/// The segment register file.
#[derive(Debug)]
pub struct SegmentRegisterManager {
    memory: [u8; 8],
}

/// A segment register, in the order of the 2-bit selector.
#[derive(Clone, Copy, PartialEq, Eq, Structural, Debug)]
pub enum SegmentRegister {
    Es,
    Cs,
    Ss,
    Ds,
}

/// The segment register selected by a 2-bit selector.
pub open spec fn segment_register_of_index(index: int) -> SegmentRegister {
    if index == 0 {
        SegmentRegister::Es
    } else if index == 1 {
        SegmentRegister::Cs
    } else if index == 2 {
        SegmentRegister::Ss
    } else {
        SegmentRegister::Ds
    }
}

/// The word held by `register` in a segment register file.
pub open spec fn segment_word(cells: Seq<u8>, register: SegmentRegister) -> int {
    word_at(cells, register.address())
}

/// The byte at the offset of `register` in a segment register file.
pub open spec fn segment_byte(cells: Seq<u8>, register: SegmentRegister) -> int {
    cells[register.address()] as int
}

/// The segment register file after a word is written to `register`.
pub open spec fn with_segment_word(cells: Seq<u8>, register: SegmentRegister, value: u16) -> Seq<
    u8,
> {
    store_word(cells, register.address(), value as int)
}

/// The segment register file after a byte is written at the offset of
/// `register`.
pub open spec fn with_segment_byte(cells: Seq<u8>, register: SegmentRegister, value: u8) -> Seq<
    u8,
> {
    cells.update(register.address(), value)
}

impl SegmentRegister {
    /// The offset of the register in the segment register file.
    pub open spec fn address(self) -> int {
        match self {
            SegmentRegister::Es => 0,
            SegmentRegister::Cs => 2,
            SegmentRegister::Ss => 4,
            SegmentRegister::Ds => 6,
        }
    }

    /// The lowercase mnemonic of the register.
    pub open spec fn name(self) -> Seq<char> {
        match self {
            SegmentRegister::Es => "es"@,
            SegmentRegister::Cs => "cs"@,
            SegmentRegister::Ss => "ss"@,
            SegmentRegister::Ds => "ds"@,
        }
    }

    /// Selects a segment register by the low two bits of `value`.
    pub fn from_byte(value: u8) -> (register: SegmentRegister)
        ensures
            register == segment_register_of_index(value as int % 4),
    {
        let index: u8 = value % 4;
        if index == 0 {
            SegmentRegister::Es
        } else if index == 1 {
            SegmentRegister::Cs
        } else if index == 2 {
            SegmentRegister::Ss
        } else {
            SegmentRegister::Ds
        }
    }

    /// The offset of the register in the segment register file.
    pub fn to_memory_address(self) -> (address: u16)
        ensures
            address as int == self.address(),
            address < 8,
    {
        match self {
            SegmentRegister::Es => 0,
            SegmentRegister::Cs => 2,
            SegmentRegister::Ss => 4,
            SegmentRegister::Ds => 6,
        }
    }

    /// The lowercase mnemonic of the register.
    pub fn mnemonic(self) -> (text: &'static str)
        ensures
            text@ == self.name(),
    {
        match self {
            SegmentRegister::Es => "es",
            SegmentRegister::Cs => "cs",
            SegmentRegister::Ss => "ss",
            SegmentRegister::Ds => "ds",
        }
    }
}

impl From<u8> for SegmentRegister {
    /// Selects a segment register by the low two bits of `value`.
    fn from(value: u8) -> (register: SegmentRegister) {
        SegmentRegister::from_byte(value)
    }
}

impl vstd::std_specs::convert::FromSpecImpl<u8> for SegmentRegister {
    open spec fn obeys_from_spec() -> bool {
        true
    }

    open spec fn from_spec(value: u8) -> SegmentRegister {
        segment_register_of_index(value as int % 4)
    }
}

impl Memory<u8, 8> for SegmentRegisterManager {
    closed spec fn cells(&self) -> Seq<u8> {
        self.memory@
    }

    proof fn lemma_size(&self) {
    }

    fn get_memory_mut(&mut self) -> (memory: &mut [u8; 8]) {
        &mut self.memory
    }

    fn get_memory(&self) -> (memory: &[u8; 8]) {
        &self.memory
    }
}

impl SegmentRegisterManager {
    /// A segment register file with every byte zero.
    pub fn new() -> (registers: Self)
        ensures
            registers.cells() == Seq::new(8, |i: int| 0u8),
    {
        let registers = SegmentRegisterManager { memory: [0u8; 8] };
        assert(registers.cells() =~= Seq::new(8, |i: int| 0u8));
        registers
    }

    /// The word held by `segment_register`.
    pub fn read_value(&self, segment_register: SegmentRegister) -> (value: u16)
        ensures
            value as int == segment_word(self.cells(), segment_register),
    {
        self.read_word_from_segment_register(segment_register)
    }

    /// The byte at the offset of `segment_register`: the high byte of its
    /// word.
    pub fn read_byte_from_segment_register(&self, segment_register: SegmentRegister) -> (value: u8)
        ensures
            value as int == segment_byte(self.cells(), segment_register),
    {
        self.read_byte(segment_register.to_memory_address())
    }

    /// The word held by `segment_register`.
    pub fn read_word_from_segment_register(&self, segment_register: SegmentRegister) -> (value:
        u16)
        ensures
            value as int == segment_word(self.cells(), segment_register),
    {
        self.read_word(segment_register.to_memory_address())
    }

    /// Stores a byte at the offset of `segment_register`: the high byte of
    /// its word.
    pub fn write_byte_to_segment_register(&mut self, segment_register: SegmentRegister, value: u8)
        ensures
            final(self).cells() == with_segment_byte(old(self).cells(), segment_register, value),
    {
        self.write_byte(segment_register.to_memory_address(), value);
    }

    /// Stores a word in `segment_register`.
    pub fn write_word_to_segment_register(
        &mut self,
        segment_register: SegmentRegister,
        value: u16,
    )
        ensures
            final(self).cells() == with_segment_word(old(self).cells(), segment_register, value),
    {
        self.write_word(segment_register.to_memory_address(), value);
    }

    /// The four segment registers with their values, in the order ES, CS,
    /// SS, DS.
    pub fn segment_register_memory_map(&self) -> (map: Vec<(&'static str, u16)>)
        ensures
            map@.len() == 4,
            forall|i: int|
                0 <= i < 4 ==> (#[trigger] map@[i]).0@ == segment_register_of_index(i).name()
                    && map@[i].1 as int == segment_word(
                    self.cells(),
                    segment_register_of_index(i),
                ),
    {
        let mut map: Vec<(&'static str, u16)> = Vec::new();
        map.push(("es", self.read_value(SegmentRegister::Es)));
        map.push(("cs", self.read_value(SegmentRegister::Cs)));
        map.push(("ss", self.read_value(SegmentRegister::Ss)));
        map.push(("ds", self.read_value(SegmentRegister::Ds)));
        map
    }
}

impl Default for SegmentRegisterManager {
    fn default() -> (store: Self)
        ensures
            store.cells() == Seq::new(8, |i: int| 0u8),
    {
        SegmentRegisterManager::new()
    }
}

} // verus!
