//! The machine state: general registers, segment registers, flags and
//! main memory.

use crate::error::EngineError;
use crate::flag_register::FlagRegisterManager;
use crate::instructions::operands::ImmediateValue;
use crate::memory::{memory_after_write, EffectiveAddress, Memory, MemoryManager};
use crate::register::RegisterManager;
use crate::segment_register::SegmentRegisterManager;
use vstd::prelude::*;

verus! {

/// The contents of the four stores of a machine.
pub struct MachineState {
    /// The sixteen bytes of the general register file.
    pub registers: Seq<u8>,
    /// The eight bytes of the segment register file.
    pub segments: Seq<u8>,
    /// The sixteen cells of the flag store.
    pub flags: Seq<bool>,
    /// The 65,536 bytes of main memory.
    pub memory: Seq<u8>,
}

impl MachineState {
    /// Every store has its fixed size.
    pub open spec fn wf(self) -> bool {
        &&& self.registers.len() == 16
        &&& self.segments.len() == 8
        &&& self.flags.len() == 16
        &&& self.memory.len() == 65536
    }

    /// The state of a machine at start: every byte zero, every flag clear.
    pub open spec fn initial() -> MachineState {
        MachineState {
            registers: Seq::new(16, |i: int| 0u8),
            segments: Seq::new(8, |i: int| 0u8),
            flags: Seq::new(16, |i: int| false),
            memory: Seq::new(65536, |i: int| 0u8),
        }
    }
}

/// The four stores of a machine.
#[derive(Debug)]
pub struct Store {
    register_store: RegisterManager,
    memory_store: MemoryManager,
    segment_register_store: SegmentRegisterManager,
    flag_register_store: FlagRegisterManager,
}

impl View for Store {
    type V = MachineState;

    closed spec fn view(&self) -> MachineState {
        MachineState {
            registers: self.register_store.cells(),
            segments: self.segment_register_store.cells(),
            flags: self.flag_register_store.cells(),
            memory: self.memory_store.cells(),
        }
    }
}

impl Store {
    /// The contents of a store are well formed.
    pub proof fn lemma_wf(&self)
        ensures
            self@.wf(),
    {
        self.register_store.lemma_size();
        self.segment_register_store.lemma_size();
        self.flag_register_store.lemma_size();
        self.memory_store.lemma_size();
    }

    /// A machine with every byte zero and every flag clear.
    pub fn new() -> (store: Self)
        ensures
            store@ == MachineState::initial(),
    {
        Store {
            register_store: RegisterManager::new(),
            memory_store: MemoryManager::new(),
            segment_register_store: SegmentRegisterManager::new(),
            flag_register_store: FlagRegisterManager::new(),
        }
    }

    /// The general register file.
    pub fn register_store(&self) -> (registers: &RegisterManager)
        ensures
            registers.cells() == self@.registers,
    {
        &self.register_store
    }

    /// The main memory.
    pub fn memory_store(&self) -> (memory: &MemoryManager)
        ensures
            memory.cells() == self@.memory,
    {
        &self.memory_store
    }

    /// The segment register file.
    pub fn segment_register_store(&self) -> (segments: &SegmentRegisterManager)
        ensures
            segments.cells() == self@.segments,
    {
        &self.segment_register_store
    }

    /// The flag register.
    pub fn flag_register_store(&self) -> (flags: &FlagRegisterManager)
        ensures
            flags.cells() == self@.flags,
    {
        &self.flag_register_store
    }

    /// The general register file, for writing.
    pub fn register_store_mut(&mut self) -> (registers: &mut RegisterManager)
        ensures
            registers.cells() == old(self)@.registers,
            final(self)@ == (MachineState { registers: final(registers).cells(), ..old(self)@ }),
    {
        &mut self.register_store
    }

    /// The main memory, for writing.
    pub fn memory_store_mut(&mut self) -> (memory: &mut MemoryManager)
        ensures
            memory.cells() == old(self)@.memory,
            final(self)@ == (MachineState { memory: final(memory).cells(), ..old(self)@ }),
    {
        &mut self.memory_store
    }

    /// The segment register file, for writing.
    pub fn segment_register_store_mut(&mut self) -> (segments: &mut SegmentRegisterManager)
        ensures
            segments.cells() == old(self)@.segments,
            final(self)@ == (MachineState { segments: final(segments).cells(), ..old(self)@ }),
    {
        &mut self.segment_register_store
    }

    /// The flag register, for writing.
    pub fn flag_register_store_mut(&mut self) -> (flags: &mut FlagRegisterManager)
        ensures
            flags.cells() == old(self)@.flags,
            final(self)@ == (MachineState { flags: final(flags).cells(), ..old(self)@ }),
    {
        &mut self.flag_register_store
    }

    /// Writes a byte or a word through a memory operand, resolving the
    /// address against the machine's own registers. A word value cannot be
    /// written to a byte target.
    pub fn write_to_effective_memory_address(
        &mut self,
        address: EffectiveAddress,
        is_wide: bool,
        value: ImmediateValue,
    ) -> (outcome: Result<(), EngineError>)
        ensures
            match memory_after_write(
                old(self)@.memory,
                address.resolve(old(self)@.registers),
                is_wide,
                value,
            ) {
                Some(cells) => outcome is Ok && final(self)@ == (MachineState {
                    memory: cells,
                    ..old(self)@
                }),
                None => {
                    &&& outcome == Err::<(), EngineError>(EngineError::IllegalOperand)
                    &&& final(self)@ == old(self)@
                },
            },
    {
        self.memory_store.write_to_effective_memory_address(
            address,
            is_wide,
            &self.register_store,
            value,
        )
    }
}

impl Default for Store {
    fn default() -> (store: Self)
        ensures
            store@ == MachineState::initial(),
    {
        Store::new()
    }
}

} // verus!
