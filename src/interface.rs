//! The interface of a datapath, independent of the architecture it
//! implements.

use vstd::prelude::*;

use crate::datapath::{CoreSelect, MipsDatapath};
use crate::error::DatapathError;
use crate::memory::Memory;
use crate::registers::GpRegisterType;

verus! {

/// A datapath that executes instructions and exposes its registers and
/// memory for reading. An implementation names the type of register data,
/// of register names and of memory, and the failure that stops it.
pub trait Datapath {
    /// The data a register holds.
    type RegisterData;

    /// The names of the registers.
    type RegisterEnum;

    /// The memory of the datapath.
    type MemoryType;

    /// Why the datapath stopped.
    type Error;

    /// Runs one instruction; in the middle of an instruction, finishes it
    /// instead.
    fn execute_instruction(&mut self) -> Result<(), Self::Error>;

    /// Runs one instruction with the chosen execution strategy.
    fn execute_instruction_select(&mut self, core_preference: CoreSelect) -> Result<
        (),
        Self::Error,
    >;

    /// Runs one stage; a datapath without stages runs one instruction.
    fn execute_stage(&mut self) -> Result<(), Self::Error>;

    /// Reads a register by name.
    fn get_register_by_enum(&self, register: Self::RegisterEnum) -> Self::RegisterData;

    /// The whole memory, for reading.
    fn get_memory(&self) -> &Self::MemoryType;
}

impl Datapath for MipsDatapath {
    type RegisterData = u64;

    type RegisterEnum = GpRegisterType;

    type MemoryType = Memory;

    type Error = DatapathError;

    fn execute_instruction(&mut self) -> Result<(), DatapathError> {
        MipsDatapath::execute_instruction(self)
    }

    fn execute_instruction_select(&mut self, core_preference: CoreSelect) -> Result<
        (),
        DatapathError,
    > {
        MipsDatapath::execute_instruction_select(self, core_preference)
    }

    fn execute_stage(&mut self) -> Result<(), DatapathError> {
        MipsDatapath::execute_stage(self)
    }

    fn get_register_by_enum(&self, register: GpRegisterType) -> u64 {
        MipsDatapath::get_register_by_enum(self, register)
    }

    fn get_memory(&self) -> &Memory {
        MipsDatapath::get_memory(self)
    }
}

} // verus!
