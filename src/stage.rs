//! The five stages of the datapath.

use vstd::prelude::*;

verus! {

/// A stage of the pseudo-single-cycle datapath.
#[derive(Clone, Copy, Debug, PartialEq, Eq, Structural)]
pub enum Stage {
    InstructionFetch,
    InstructionDecode,
    Execute,
    Memory,
    WriteBack,
}

/// The stage after `s`; write-back is followed by instruction fetch.
pub open spec fn next_stage(s: Stage) -> Stage {
    match s {
        Stage::InstructionFetch => Stage::InstructionDecode,
        Stage::InstructionDecode => Stage::Execute,
        Stage::Execute => Stage::Memory,
        Stage::Memory => Stage::WriteBack,
        Stage::WriteBack => Stage::InstructionFetch,
    }
}

/// How many stages are left until the current instruction is complete;
/// from instruction fetch that is a whole instruction.
pub open spec fn stages_left(s: Stage) -> nat {
    match s {
        Stage::InstructionFetch => 5,
        Stage::InstructionDecode => 4,
        Stage::Execute => 3,
        Stage::Memory => 2,
        Stage::WriteBack => 1,
    }
}

impl Stage {
    /// Given a stage, returns the next one; after the last stage comes the
    /// first.
    pub fn get_next_stage(current_stage: Stage) -> (r: Stage)
        ensures
            r == next_stage(current_stage),
    {
        match current_stage {
            Stage::InstructionFetch => Stage::InstructionDecode,
            Stage::InstructionDecode => Stage::Execute,
            Stage::Execute => Stage::Memory,
            Stage::Memory => Stage::WriteBack,
            Stage::WriteBack => Stage::InstructionFetch,
        }
    }
}

} // verus!
