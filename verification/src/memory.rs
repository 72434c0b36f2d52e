//! Byte-addressed stores, the 64 KiB main memory and effective addresses.

use crate::error::EngineError;
use crate::helpers::{byte_to_signed, signed16, signed8, unsigned16, unsigned8, word_to_signed};
use crate::instructions::operands::ImmediateValue;
use crate::mode::InstructionMode;
use crate::register::{register_value, Register, RegisterManager};
use crate::stream::{word_le, ByteStream};
use vstd::prelude::*;

verus! {

/// The cell that holds the low byte of a word stored at `address`: the next
/// cell, wrapping to cell 0 at the end of a store of `size` cells.
pub open spec fn next_cell(address: int, size: int) -> int {
    if address + 1 >= size {
        0
    } else {
        address + 1
    }
}

/// The word stored at `address`: high byte first.
pub open spec fn word_at(cells: Seq<u8>, address: int) -> int {
    cells[address] as int * 256 + cells[next_cell(address, cells.len() as int)] as int
}

/// The cells after storing the 16-bit pattern `value` at `address`.
pub open spec fn store_word(cells: Seq<u8>, address: int, value: int) -> Seq<u8> {
    cells.update(address, (value / 256) as u8).update(
        next_cell(address, cells.len() as int),
        (value % 256) as u8,
    )
}

/// A fixed-size store of cells.
pub trait Memory<T: Copy, const MEMORY_SIZE: usize>: Sized {
    /// The contents of the store, cell by cell.
    spec fn cells(&self) -> Seq<T>;

    /// The store holds exactly `MEMORY_SIZE` cells.
    proof fn lemma_size(&self)
        ensures
            self.cells().len() == MEMORY_SIZE,
    ;

    /// Whether `address` names a cell of the store.
    fn verify_address(&self, address: u16) -> (valid: bool)
        ensures
            valid == ((address as int) < MEMORY_SIZE),
    {
        (address as usize) < MEMORY_SIZE
    }

    /// The cells of the store, for writing.
    fn get_memory_mut(&mut self) -> (memory: &mut [T; MEMORY_SIZE])
        ensures
            (*memory)@ == old(self).cells(),
            final(self).cells() == (*final(memory))@,
    ;

    /// The cells of the store.
    fn get_memory(&self) -> (memory: &[T; MEMORY_SIZE])
        ensures
            memory@ == self.cells(),
    ;
}

/// Byte and word access to a store of bytes. Words are stored high byte
/// first.
pub trait ByteMemory<const MEMORY_SIZE: usize>: Memory<u8, MEMORY_SIZE> {
    /// The byte at `address`.
    fn read_byte(&self, address: u16) -> (value: u8)
        requires
            (address as int) < MEMORY_SIZE,
        ensures
            value == self.cells()[address as int],
    ;

    /// The byte at `address`, read as a two's-complement value.
    fn read_signed_byte(&self, address: u16) -> (value: i8)
        requires
            (address as int) < MEMORY_SIZE,
        ensures
            value as int == signed8(self.cells()[address as int] as int),
    ;

    /// The word whose high byte is at `address`.
    fn read_word(&self, address: u16) -> (value: u16)
        requires
            (address as int) < MEMORY_SIZE,
        ensures
            value as int == word_at(self.cells(), address as int),
    ;

    /// The word whose high byte is at `address`, read as a
    /// two's-complement value.
    fn read_signed_word(&self, address: u16) -> (value: i16)
        requires
            (address as int) < MEMORY_SIZE,
        ensures
            value as int == signed16(word_at(self.cells(), address as int)),
    ;

    /// Stores a byte at `address`.
    fn write_byte(&mut self, address: u16, value: u8)
        requires
            (address as int) < MEMORY_SIZE,
        ensures
            final(self).cells() == old(self).cells().update(address as int, value),
    ;

    /// Stores a word, its high byte at `address` and its low byte in the
    /// next cell.
    fn write_word(&mut self, address: u16, value: u16)
        requires
            (address as int) < MEMORY_SIZE,
        ensures
            final(self).cells() == store_word(old(self).cells(), address as int, value as int),
    ;
}

fn low_byte_address(address: u16, size: usize) -> (low: usize)
    requires
        (address as int) < size,
    ensures
        low as int == next_cell(address as int, size as int),
        low < size,
{
    let next: usize = address as usize + 1;
    if next >= size {
        0
    } else {
        next
    }
}

impl<M: Memory<u8, MEMORY_SIZE>, const MEMORY_SIZE: usize> ByteMemory<MEMORY_SIZE> for M {
    fn read_byte(&self, address: u16) -> (value: u8) {
        self.get_memory()[address as usize]
    }

    fn read_signed_byte(&self, address: u16) -> (value: i8) {
        byte_to_signed(self.get_memory()[address as usize])
    }

    fn read_word(&self, address: u16) -> (value: u16) {
        let memory = self.get_memory();
        let low_address: usize = low_byte_address(address, MEMORY_SIZE);
        let high: u8 = memory[address as usize];
        let low: u8 = memory[low_address];
        high as u16 * 256 + low as u16
    }

    fn read_signed_word(&self, address: u16) -> (value: i16) {
        word_to_signed(self.read_word(address))
    }

    fn write_byte(&mut self, address: u16, value: u8) {
        let memory = self.get_memory_mut();
        memory[address as usize] = value;
    }

    fn write_word(&mut self, address: u16, value: u16) {
        let low_address: usize = low_byte_address(address, MEMORY_SIZE);
        let high: u8 = (value / 256) as u8;
        let low: u8 = (value % 256) as u8;
        let memory = self.get_memory_mut();
        memory[address as usize] = high;
        memory[low_address] = low;
    }
}

/// The address expression of a memory operand.
#[derive(Clone, Copy, PartialEq, Eq, Structural, Debug)]
pub enum EffectiveAddress {
    Register(Register),
    RegisterSum(Register, Register),
    RegisterPlusByte(Register, i8),
    RegisterPlusWord(Register, i16),
    RegisterSumPlusByte(Register, Register, i8),
    RegisterSumPlusWord(Register, Register, i16),
    DirectAddress(u16),
}

/// The address expression that an R/M field selects when no displacement
/// follows. Field 6 selects a direct address and has no entry here.
pub open spec fn plain_address(rm: int) -> EffectiveAddress {
    if rm == 0 {
        EffectiveAddress::RegisterSum(Register::Bx, Register::Si)
    } else if rm == 1 {
        EffectiveAddress::RegisterSum(Register::Bx, Register::Di)
    } else if rm == 2 {
        EffectiveAddress::RegisterSum(Register::Bp, Register::Si)
    } else if rm == 3 {
        EffectiveAddress::RegisterSum(Register::Bp, Register::Di)
    } else if rm == 4 {
        EffectiveAddress::Register(Register::Si)
    } else if rm == 5 {
        EffectiveAddress::Register(Register::Di)
    } else {
        EffectiveAddress::Register(Register::Bx)
    }
}

/// The address expression that an R/M field selects with a signed 8-bit
/// displacement.
pub open spec fn byte_displaced_address(rm: int, displacement: i8) -> EffectiveAddress {
    if rm == 0 {
        EffectiveAddress::RegisterSumPlusByte(Register::Bx, Register::Si, displacement)
    } else if rm == 1 {
        EffectiveAddress::RegisterSumPlusByte(Register::Bx, Register::Di, displacement)
    } else if rm == 2 {
        EffectiveAddress::RegisterSumPlusByte(Register::Bp, Register::Si, displacement)
    } else if rm == 3 {
        EffectiveAddress::RegisterSumPlusByte(Register::Bp, Register::Di, displacement)
    } else if rm == 4 {
        EffectiveAddress::RegisterPlusByte(Register::Si, displacement)
    } else if rm == 5 {
        EffectiveAddress::RegisterPlusByte(Register::Di, displacement)
    } else if rm == 6 {
        EffectiveAddress::RegisterPlusByte(Register::Bp, displacement)
    } else {
        EffectiveAddress::RegisterPlusByte(Register::Bx, displacement)
    }
}

/// The address expression that an R/M field selects with a signed 16-bit
/// displacement.
pub open spec fn word_displaced_address(rm: int, displacement: i16) -> EffectiveAddress {
    if rm == 0 {
        EffectiveAddress::RegisterSumPlusWord(Register::Bx, Register::Si, displacement)
    } else if rm == 1 {
        EffectiveAddress::RegisterSumPlusWord(Register::Bx, Register::Di, displacement)
    } else if rm == 2 {
        EffectiveAddress::RegisterSumPlusWord(Register::Bp, Register::Si, displacement)
    } else if rm == 3 {
        EffectiveAddress::RegisterSumPlusWord(Register::Bp, Register::Di, displacement)
    } else if rm == 4 {
        EffectiveAddress::RegisterPlusWord(Register::Si, displacement)
    } else if rm == 5 {
        EffectiveAddress::RegisterPlusWord(Register::Di, displacement)
    } else if rm == 6 {
        EffectiveAddress::RegisterPlusWord(Register::Bp, displacement)
    } else {
        EffectiveAddress::RegisterPlusWord(Register::Bx, displacement)
    }
}

/// The address expression encoded by a mode and an R/M field, with the
/// displacement read at `position`, and the position after it. Fails with
/// a truncated stream where the displacement is cut short, and with an
/// illegal operand in register mode, which encodes no address.
pub open spec fn effective_address_at(
    bytes: Seq<u8>,
    position: int,
    mode: InstructionMode,
    rm: int,
) -> Result<(EffectiveAddress, int), EngineError> {
    match mode {
        InstructionMode::Register => Err(EngineError::IllegalOperand),
        InstructionMode::Memory => if rm != 6 {
            Ok((plain_address(rm), position))
        } else if position + 2 <= bytes.len() {
            Ok((EffectiveAddress::DirectAddress(word_le(bytes, position) as u16), position + 2))
        } else {
            Err(EngineError::TruncatedStream)
        },
        InstructionMode::MemoryPlusByte => if position + 1 <= bytes.len() {
            Ok((byte_displaced_address(rm, signed8(bytes[position] as int) as i8), position + 1))
        } else {
            Err(EngineError::TruncatedStream)
        },
        InstructionMode::MemoryPlusWord => if position + 2 <= bytes.len() {
            Ok(
                (
                    word_displaced_address(rm, signed16(word_le(bytes, position)) as i16),
                    position + 2,
                ),
            )
        } else {
            Err(EngineError::TruncatedStream)
        },
    }
}

fn plain_address_of(rm: u8) -> (address: EffectiveAddress)
    requires
        rm < 8,
        rm != 6,
    ensures
        address == plain_address(rm as int),
{
    if rm == 0 {
        EffectiveAddress::RegisterSum(Register::Bx, Register::Si)
    } else if rm == 1 {
        EffectiveAddress::RegisterSum(Register::Bx, Register::Di)
    } else if rm == 2 {
        EffectiveAddress::RegisterSum(Register::Bp, Register::Si)
    } else if rm == 3 {
        EffectiveAddress::RegisterSum(Register::Bp, Register::Di)
    } else if rm == 4 {
        EffectiveAddress::Register(Register::Si)
    } else if rm == 5 {
        EffectiveAddress::Register(Register::Di)
    } else {
        EffectiveAddress::Register(Register::Bx)
    }
}

fn byte_displaced_address_of(rm: u8, displacement: i8) -> (address: EffectiveAddress)
    requires
        rm < 8,
    ensures
        address == byte_displaced_address(rm as int, displacement),
{
    if rm == 0 {
        EffectiveAddress::RegisterSumPlusByte(Register::Bx, Register::Si, displacement)
    } else if rm == 1 {
        EffectiveAddress::RegisterSumPlusByte(Register::Bx, Register::Di, displacement)
    } else if rm == 2 {
        EffectiveAddress::RegisterSumPlusByte(Register::Bp, Register::Si, displacement)
    } else if rm == 3 {
        EffectiveAddress::RegisterSumPlusByte(Register::Bp, Register::Di, displacement)
    } else if rm == 4 {
        EffectiveAddress::RegisterPlusByte(Register::Si, displacement)
    } else if rm == 5 {
        EffectiveAddress::RegisterPlusByte(Register::Di, displacement)
    } else if rm == 6 {
        EffectiveAddress::RegisterPlusByte(Register::Bp, displacement)
    } else {
        EffectiveAddress::RegisterPlusByte(Register::Bx, displacement)
    }
}

fn word_displaced_address_of(rm: u8, displacement: i16) -> (address: EffectiveAddress)
    requires
        rm < 8,
    ensures
        address == word_displaced_address(rm as int, displacement),
{
    if rm == 0 {
        EffectiveAddress::RegisterSumPlusWord(Register::Bx, Register::Si, displacement)
    } else if rm == 1 {
        EffectiveAddress::RegisterSumPlusWord(Register::Bx, Register::Di, displacement)
    } else if rm == 2 {
        EffectiveAddress::RegisterSumPlusWord(Register::Bp, Register::Si, displacement)
    } else if rm == 3 {
        EffectiveAddress::RegisterSumPlusWord(Register::Bp, Register::Di, displacement)
    } else if rm == 4 {
        EffectiveAddress::RegisterPlusWord(Register::Si, displacement)
    } else if rm == 5 {
        EffectiveAddress::RegisterPlusWord(Register::Di, displacement)
    } else if rm == 6 {
        EffectiveAddress::RegisterPlusWord(Register::Bp, displacement)
    } else {
        EffectiveAddress::RegisterPlusWord(Register::Bx, displacement)
    }
}

/// The contribution of a register to an address: its value, read by the
/// register's own width and sign-extended.
pub open spec fn address_component(registers: Seq<u8>, register: Register) -> int {
    register_value(registers, register).as_int()
}

impl EffectiveAddress {
    /// Decodes the address expression selected by `mode` and the low three
    /// bits of `mem_byte`, reading its displacement from the stream. On
    /// failure the stream keeps its position.
    pub fn read(stream: &mut ByteStream, mode: InstructionMode, mem_byte: u8) -> (outcome: Result<
        EffectiveAddress,
        EngineError,
    >)
        ensures
            final(stream).bytes() == old(stream).bytes(),
            match effective_address_at(
                old(stream).bytes(),
                old(stream).pos(),
                mode,
                mem_byte as int % 8,
            ) {
                Ok((address, position)) => outcome == Ok::<EffectiveAddress, EngineError>(address)
                    && final(stream).pos() == position,
                Err(error) => outcome == Err::<EffectiveAddress, EngineError>(error) && final(
                    stream
                ).pos() == old(stream).pos(),
            },
    {
        let rm: u8 = mem_byte % 8;
        match mode {
            InstructionMode::Memory => {
                if rm == 6 {
                    let displacement: u16 = stream.read_u16()?;
                    Ok(EffectiveAddress::DirectAddress(displacement))
                } else {
                    Ok(plain_address_of(rm))
                }
            },
            InstructionMode::MemoryPlusByte => {
                let displacement: i8 = stream.read_i8()?;
                Ok(byte_displaced_address_of(rm, displacement))
            },
            InstructionMode::MemoryPlusWord => {
                let displacement: i16 = stream.read_i16()?;
                Ok(word_displaced_address_of(rm, displacement))
            },
            InstructionMode::Register => Err(EngineError::IllegalOperand),
        }
    }

    /// The sum of the components of the expression, before wrapping.
    pub open spec fn component_sum(self, registers: Seq<u8>) -> int {
        match self {
            EffectiveAddress::Register(register) => address_component(registers, register),
            EffectiveAddress::RegisterSum(first, second) => address_component(registers, first)
                + address_component(registers, second),
            EffectiveAddress::RegisterPlusByte(register, displacement) => address_component(
                registers,
                register,
            ) + displacement as int,
            EffectiveAddress::RegisterPlusWord(register, displacement) => address_component(
                registers,
                register,
            ) + displacement as int,
            EffectiveAddress::RegisterSumPlusByte(first, second, displacement) => address_component(
                registers,
                first,
            ) + address_component(registers, second) + displacement as int,
            EffectiveAddress::RegisterSumPlusWord(first, second, displacement) => address_component(
                registers,
                first,
            ) + address_component(registers, second) + displacement as int,
            EffectiveAddress::DirectAddress(address) => address as int,
        }
    }

    /// The 16-bit linear address of the expression: the sum of its
    /// components modulo 65536.
    pub open spec fn resolve(self, registers: Seq<u8>) -> int {
        self.component_sum(registers) % 65536
    }

    /// The cycles charged for computing the address.
    pub open spec fn cycles(self) -> int {
        match self {
            EffectiveAddress::DirectAddress(_) => 6,
            EffectiveAddress::Register(_) => 5,
            EffectiveAddress::RegisterPlusByte(_, _)
            | EffectiveAddress::RegisterPlusWord(_, _) => 9,
            EffectiveAddress::RegisterSum(first, second) => if fast_pair(first, second) {
                7
            } else {
                8
            },
            EffectiveAddress::RegisterSumPlusByte(first, second, _)
            | EffectiveAddress::RegisterSumPlusWord(first, second, _) => if fast_pair(
                first,
                second,
            ) {
                11
            } else {
                12
            },
        }
    }

    /// The cycles charged for computing the address.
    pub fn num_cycles(&self) -> (cycles: u32)
        ensures
            cycles as int == self.cycles(),
            5 <= cycles <= 12,
    {
        match self {
            EffectiveAddress::DirectAddress(_) => 6,
            EffectiveAddress::Register(_) => 5,
            EffectiveAddress::RegisterPlusByte(_, _)
            | EffectiveAddress::RegisterPlusWord(_, _) => 9,
            EffectiveAddress::RegisterSum(first, second) => if is_fast_pair(*first, *second) {
                7
            } else {
                8
            },
            EffectiveAddress::RegisterSumPlusByte(first, second, _)
            | EffectiveAddress::RegisterSumPlusWord(first, second, _) => if is_fast_pair(
                *first,
                *second,
            ) {
                11
            } else {
                12
            },
        }
    }
}

/// The two base-index pairs whose sum the processor forms one cycle
/// faster: BX+SI and BP+DI.
pub open spec fn fast_pair(first: Register, second: Register) -> bool {
    (first == Register::Bx && second == Register::Si) || (first == Register::Bp && second
        == Register::Di)
}

fn is_fast_pair(first: Register, second: Register) -> (fast: bool)
    ensures
        fast == fast_pair(first, second),
{
    match (first, second) {
        (Register::Bx, Register::Si) => true,
        (Register::Bp, Register::Di) => true,
        _ => false,
    }
}

/// The value read through a memory operand: a byte or a word, as a signed
/// immediate.
pub open spec fn memory_value(memory: Seq<u8>, address: int, is_wide: bool) -> ImmediateValue {
    if is_wide {
        ImmediateValue::SignedWord(signed16(word_at(memory, address)) as i16)
    } else {
        ImmediateValue::SignedByte(signed8(memory[address] as int) as i8)
    }
}

/// The memory after a value is written through a memory operand, or
/// nothing when a word value is written to a byte target. A byte value
/// written as a word is sign-extended.
pub open spec fn memory_after_write(
    memory: Seq<u8>,
    address: int,
    is_wide: bool,
    value: ImmediateValue,
) -> Option<Seq<u8>> {
    if is_wide {
        Some(store_word(memory, address, unsigned16(value.as_int())))
    } else if value is SignedByte {
        Some(memory.update(address, unsigned8(value.as_int()) as u8))
    } else {
        None
    }
}

/// The main memory: 65,536 bytes.
#[derive(Debug)]
pub struct MemoryManager {
    memory: [u8; 65536],
}

impl Memory<u8, 65536> for MemoryManager {
    closed spec fn cells(&self) -> Seq<u8> {
        self.memory@
    }

    proof fn lemma_size(&self) {
    }

    fn get_memory_mut(&mut self) -> (memory: &mut [u8; 65536]) {
        &mut self.memory
    }

    fn get_memory(&self) -> (memory: &[u8; 65536]) {
        &self.memory
    }
}

impl MemoryManager {
    /// A memory with every byte zero.
    pub fn new() -> (memory: Self)
        ensures
            memory.cells() == Seq::new(65536, |i: int| 0u8),
    {
        let memory = MemoryManager { memory: [0u8; 65536] };
        assert(memory.cells() =~= Seq::new(65536, |i: int| 0u8));
        memory
    }

    /// Resolves an address expression against the current register values.
    pub fn effective_address_to_address(
        &self,
        address: EffectiveAddress,
        register_manager: &RegisterManager,
    ) -> (linear: u16)
        ensures
            linear as int == address.resolve(register_manager.cells()),
    {
        let sum: i32 = match address {
            EffectiveAddress::Register(register) => register_manager.read_value(
                register,
            ).to_signed_word() as i32,
            EffectiveAddress::RegisterSum(first, second) => register_manager.read_value(
                first,
            ).to_signed_word() as i32 + register_manager.read_value(second).to_signed_word()
                as i32,
            EffectiveAddress::RegisterPlusByte(register, displacement) => {
                register_manager.read_value(register).to_signed_word() as i32 + displacement as i32
            },
            EffectiveAddress::RegisterPlusWord(register, displacement) => {
                register_manager.read_value(register).to_signed_word() as i32 + displacement as i32
            },
            EffectiveAddress::RegisterSumPlusByte(first, second, displacement) => {
                register_manager.read_value(first).to_signed_word() as i32
                    + register_manager.read_value(second).to_signed_word() as i32
                    + displacement as i32
            },
            EffectiveAddress::RegisterSumPlusWord(first, second, displacement) => {
                register_manager.read_value(first).to_signed_word() as i32
                    + register_manager.read_value(second).to_signed_word() as i32
                    + displacement as i32
            },
            EffectiveAddress::DirectAddress(direct) => direct as i32,
        };
        let shifted: u32 = (sum + 131072) as u32;
        assert(shifted as int % 65536 == sum as int % 65536);
        (shifted % 65536) as u16
    }

    /// Reads a byte or a word through a memory operand.
    pub fn read_memory_from_effective_address(
        &self,
        address: EffectiveAddress,
        is_wide: bool,
        register_manager: &RegisterManager,
    ) -> (value: ImmediateValue)
        ensures
            value == memory_value(
                self.cells(),
                address.resolve(register_manager.cells()),
                is_wide,
            ),
    {
        let linear: u16 = self.effective_address_to_address(address, register_manager);
        if is_wide {
            ImmediateValue::SignedWord(self.read_signed_word(linear))
        } else {
            ImmediateValue::SignedByte(self.read_signed_byte(linear))
        }
    }

    /// Writes a byte or a word through a memory operand. A word value
    /// cannot be written to a byte target.
    pub fn write_to_effective_memory_address(
        &mut self,
        address: EffectiveAddress,
        is_wide: bool,
        register_manager: &RegisterManager,
        value: ImmediateValue,
    ) -> (outcome: Result<(), EngineError>)
        ensures
            match memory_after_write(
                old(self).cells(),
                address.resolve(register_manager.cells()),
                is_wide,
                value,
            ) {
                Some(cells) => outcome is Ok && final(self).cells() == cells,
                None => {
                    &&& outcome == Err::<(), EngineError>(EngineError::IllegalOperand)
                    &&& final(self).cells() == old(self).cells()
                },
            },
    {
        let linear: u16 = self.effective_address_to_address(address, register_manager);
        if is_wide {
            self.write_word(linear, value.to_word());
            Ok(())
        } else {
            match value.to_byte() {
                Some(byte) => {
                    self.write_byte(linear, byte);
                    Ok(())
                },
                None => Err(EngineError::IllegalOperand),
            }
        }
    }

    /// A copy of the whole memory.
    pub fn dump(&self) -> (bytes: Vec<u8>)
        ensures
            bytes@ == self.cells(),
    {
        let mut bytes: Vec<u8> = Vec::new();
        let mut i: usize = 0;
        while i < 65536
            invariant
                i <= 65536,
                bytes@.len() == i,
                forall|j: int| 0 <= j < i ==> bytes@[j] == self.cells()[j],
            decreases 65536 - i,
        {
            bytes.push(self.memory[i]);
            i = i + 1;
        }
        assert(bytes@ =~= self.cells());
        bytes
    }
}

impl Default for MemoryManager {
    fn default() -> (store: Self)
        ensures
            store.cells() == Seq::new(65536, |i: int| 0u8),
    {
        MemoryManager::new()
    }
}

} // verus!
