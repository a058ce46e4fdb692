//! Decoding of raw 32-bit instruction words.

use vstd::prelude::*;

use crate::constants::{OPCODE_COP1, OPCODE_J, OPCODE_JAL, OPCODE_LW, OPCODE_ORI, OPCODE_SPECIAL, OPCODE_SW};
use crate::error::DatapathError;

verus! {

/// A register-register instruction (opcode `SPECIAL`).
#[derive(Clone, Copy, Debug, PartialEq, Eq, Structural)]
pub struct RType {
    pub op: u8,
    pub rs: u8,
    pub rt: u8,
    pub rd: u8,
    pub shamt: u8,
    pub funct: u8,
}

/// An instruction with a 16-bit immediate.
#[derive(Clone, Copy, Debug, PartialEq, Eq, Structural)]
pub struct IType {
    pub op: u8,
    pub rs: u8,
    pub rt: u8,
    pub immediate: u16,
}

/// A jump instruction with a 26-bit target.
#[derive(Clone, Copy, Debug, PartialEq, Eq, Structural)]
pub struct JType {
    pub op: u8,
    pub addr: u32,
}

/// A register-register instruction of the floating-point coprocessor.
#[derive(Clone, Copy, Debug, PartialEq, Eq, Structural)]
pub struct FpuRType {
    pub op: u8,
    pub fmt: u8,
    pub ft: u8,
    pub fs: u8,
    pub fd: u8,
    pub function: u8,
}

/// A decoded instruction; the variant is chosen by the opcode alone.
#[derive(Clone, Copy, Debug, PartialEq, Eq, Structural)]
pub enum Instruction {
    RType(RType),
    IType(IType),
    JType(JType),
    FpuRType(FpuRType),
}

/// Bits 31..26 of a word.
pub open spec fn opcode_of(word: u32) -> u8 {
    (word >> 26u32) as u8
}

/// The five bits of `word` that start at bit `shift`.
pub open spec fn field5(word: u32, shift: u32) -> u8 {
    ((word >> shift) & 0x1f) as u8
}

/// Bits 5..0 of a word.
pub open spec fn low6(word: u32) -> u8 {
    (word & 0x3f) as u8
}

/// Bits 15..0 of a word.
pub open spec fn imm_of(word: u32) -> u16 {
    (word & 0xffff) as u16
}

/// Bits 25..0 of a word.
pub open spec fn target_of(word: u32) -> u32 {
    word & 0x3ff_ffff
}

/// The opcodes decoded as I-type instructions.
pub open spec fn is_itype_opcode(op: u8) -> bool {
    op == OPCODE_ORI || op == OPCODE_LW || op == OPCODE_SW
}

/// What a raw word decodes to.
pub open spec fn decoded(word: u32) -> Result<Instruction, DatapathError> {
    let op = opcode_of(word);
    if op == OPCODE_SPECIAL {
        Ok(
            Instruction::RType(
                RType {
                    op,
                    rs: field5(word, 21),
                    rt: field5(word, 16),
                    rd: field5(word, 11),
                    shamt: field5(word, 6),
                    funct: low6(word),
                },
            ),
        )
    } else if op == OPCODE_COP1 {
        Ok(
            Instruction::FpuRType(
                FpuRType {
                    op,
                    fmt: field5(word, 21),
                    ft: field5(word, 16),
                    fs: field5(word, 11),
                    fd: field5(word, 6),
                    function: low6(word),
                },
            ),
        )
    } else if op == OPCODE_J || op == OPCODE_JAL {
        Ok(Instruction::JType(JType { op, addr: target_of(word) }))
    } else if is_itype_opcode(op) {
        Ok(
            Instruction::IType(
                IType { op, rs: field5(word, 21), rt: field5(word, 16), immediate: imm_of(word) },
            ),
        )
    } else {
        Err(DatapathError::UnsupportedOpcode { opcode: op })
    }
}

/// The register fields of an instruction name one of the 32 registers.
pub open spec fn register_fields_in_range(instr: Instruction) -> bool {
    match instr {
        Instruction::RType(r) => r.rs < 32 && r.rt < 32 && r.rd < 32 && r.shamt < 32,
        Instruction::IType(i) => i.rs < 32 && i.rt < 32,
        Instruction::JType(_) => true,
        Instruction::FpuRType(f) => f.fmt < 32 && f.ft < 32 && f.fs < 32 && f.fd < 32,
    }
}

/// Each five-bit field of a word is below 32.
pub proof fn lemma_field5_bound(word: u32, shift: u32)
    requires
        shift < 32,
    ensures
        field5(word, shift) < 32,
{
    assert(((word >> shift) & 0x1f) < 32) by (bit_vector);
}

/// A decoded instruction names registers 0..31 only.
pub proof fn lemma_decoded_in_range(word: u32)
    ensures
        decoded(word) is Ok ==> register_fields_in_range(decoded(word)->Ok_0),
{
    lemma_field5_bound(word, 21);
    lemma_field5_bound(word, 16);
    lemma_field5_bound(word, 11);
    lemma_field5_bound(word, 6);
}

impl Instruction {
    /// Decodes a raw word: opcode 0 is an R-type instruction, the
    /// coprocessor opcode an FPU R-type one, the jump opcodes J-type, the
    /// recognized immediate opcodes I-type. Any other opcode is rejected.
    pub fn decode(word: u32) -> (r: Result<Instruction, DatapathError>)
        ensures
            r == decoded(word),
    {
        let op = (word >> 26u32) as u8;
        if op == OPCODE_SPECIAL {
            Ok(
                Instruction::RType(
                    RType {
                        op,
                        rs: ((word >> 21u32) & 0x1f) as u8,
                        rt: ((word >> 16u32) & 0x1f) as u8,
                        rd: ((word >> 11u32) & 0x1f) as u8,
                        shamt: ((word >> 6u32) & 0x1f) as u8,
                        funct: (word & 0x3f) as u8,
                    },
                ),
            )
        } else if op == OPCODE_COP1 {
            Ok(
                Instruction::FpuRType(
                    FpuRType {
                        op,
                        fmt: ((word >> 21u32) & 0x1f) as u8,
                        ft: ((word >> 16u32) & 0x1f) as u8,
                        fs: ((word >> 11u32) & 0x1f) as u8,
                        fd: ((word >> 6u32) & 0x1f) as u8,
                        function: (word & 0x3f) as u8,
                    },
                ),
            )
        } else if op == OPCODE_J || op == OPCODE_JAL {
            Ok(Instruction::JType(JType { op, addr: word & 0x3ff_ffff }))
        } else if op == OPCODE_ORI || op == OPCODE_LW || op == OPCODE_SW {
            Ok(
                Instruction::IType(
                    IType {
                        op,
                        rs: ((word >> 21u32) & 0x1f) as u8,
                        rt: ((word >> 16u32) & 0x1f) as u8,
                        immediate: (word & 0xffff) as u16,
                    },
                ),
            )
        } else {
            Err(DatapathError::UnsupportedOpcode { opcode: op })
        }
    }
}

} // verus!
