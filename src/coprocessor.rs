//! The floating-point coprocessor as the datapath sees it: its register
//! file, the values handed to it at each stage, and the signal by which it
//! claims the value written to the destination register.
//!
//! Each stage of the datapath ends with a call of the matching hook, and
//! each hook moves the coprocessor to the following stage, so that the two
//! stay in step. This unit performs no floating-point arithmetic.

use vstd::prelude::*;

use crate::stage::{next_stage, Stage};

verus! {

/// Whether the coprocessor supplies the value written back to a
/// general-purpose register.
#[derive(Clone, Copy, Debug, PartialEq, Eq, Structural)]
pub enum DataWrite {
    NoWrite,
    YesWrite,
}

/// The coprocessor's own control signals, as far as the datapath reads them.
#[derive(Clone, Copy, Debug, PartialEq, Eq, Structural)]
pub struct FpuControlSignals {
    pub data_write: DataWrite,
}

/// The floating-point coprocessor.
#[derive(Clone, Copy, Debug)]
pub struct MipsFpCoprocessor {
    /// The floating-point registers, as raw bits.
    pub fpr: [u64; 32],
    pub signals: FpuControlSignals,
    /// The raw instruction word of the current instruction.
    pub instruction: u32,
    /// The second general-purpose register read in instruction decode.
    pub data_from_main_processor: u64,
    /// The value the primary unit is about to write back.
    pub fp_register_data_from_main_processor: u64,
    /// The value the coprocessor offers for a general-purpose register.
    pub data: u64,
    /// The stage the coprocessor is in.
    pub stage: Stage,
}

impl MipsFpCoprocessor {
    /// The coprocessor after a hook that completes `self.stage`.
    pub open spec fn advanced(self) -> MipsFpCoprocessor {
        MipsFpCoprocessor { stage: next_stage(self.stage), ..self }
    }

    /// A coprocessor with zeroed registers, in instruction fetch, that
    /// claims no register write.
    pub fn new() -> (c: MipsFpCoprocessor)
        ensures
            c.stage == Stage::InstructionFetch,
            c.signals.data_write == DataWrite::NoWrite,
            c.instruction == 0,
            c.data_from_main_processor == 0,
            c.fp_register_data_from_main_processor == 0,
            c.data == 0,
            forall|i: int| 0 <= i < 32 ==> #[trigger] c.fpr[i] == 0,
    {
        MipsFpCoprocessor {
            fpr: [0u64; 32],
            signals: FpuControlSignals { data_write: DataWrite::NoWrite },
            instruction: 0,
            data_from_main_processor: 0,
            fp_register_data_from_main_processor: 0,
            data: 0,
            stage: Stage::InstructionFetch,
        }
    }

    /// Instruction fetch: hands over the raw instruction word.
    pub fn set_instruction(&mut self, instruction: u32)
        ensures
            *final(self) == (MipsFpCoprocessor { instruction, ..*old(self) }).advanced(),
    {
        self.instruction = instruction;
        self.stage = Stage::get_next_stage(self.stage);
    }

    /// Hands over the second register read by the primary unit.
    pub fn set_data_from_main_processor(&mut self, data: u64)
        ensures
            *final(self) == (MipsFpCoprocessor { data_from_main_processor: data, ..*old(self) }),
    {
        self.data_from_main_processor = data;
    }

    /// Hands over the value the primary unit is about to write back.
    pub fn set_fp_register_data_from_main_processor(&mut self, data: u64)
        ensures
            *final(self) == (MipsFpCoprocessor {
                fp_register_data_from_main_processor: data,
                ..*old(self)
            }),
    {
        self.fp_register_data_from_main_processor = data;
    }

    /// The value the coprocessor offers for a general-purpose register.
    pub fn get_data_register(&self) -> (r: u64)
        ensures
            r == self.data,
    {
        self.data
    }

    /// End of instruction decode.
    pub fn stage_instruction_decode(&mut self)
        ensures
            *final(self) == old(self).advanced(),
    {
        self.stage = Stage::get_next_stage(self.stage);
    }

    /// End of execute.
    pub fn stage_execute(&mut self)
        ensures
            *final(self) == old(self).advanced(),
    {
        self.stage = Stage::get_next_stage(self.stage);
    }

    /// End of memory access.
    pub fn stage_memory(&mut self)
        ensures
            *final(self) == old(self).advanced(),
    {
        self.stage = Stage::get_next_stage(self.stage);
    }

    /// End of write-back.
    pub fn stage_writeback(&mut self)
        ensures
            *final(self) == old(self).advanced(),
    {
        self.stage = Stage::get_next_stage(self.stage);
    }
}

impl Default for MipsFpCoprocessor {
    fn default() -> (c: MipsFpCoprocessor)
        ensures
            c.stage == Stage::InstructionFetch,
            c.signals.data_write == DataWrite::NoWrite,
    {
        MipsFpCoprocessor::new()
    }
}

} // verus!
