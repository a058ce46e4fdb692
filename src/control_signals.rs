//! Control signals and their derivation from a decoded instruction.
//!
//! Derivation is a two-level lookup: the opcode selects a signal template,
//! and for register-register instructions the function code selects the
//! register width and, through [`alu_control_for`], the ALU operation.

use vstd::prelude::*;

use crate::constants::{
    ENC_DIV, ENC_DIVU, ENC_MUL, ENC_MULU, FUNCT_ADD, FUNCT_AND, FUNCT_DADD, FUNCT_DSUB, FUNCT_OR,
    FUNCT_SLT, FUNCT_SLTU, FUNCT_SOP30, FUNCT_SOP31, FUNCT_SOP32, FUNCT_SOP33, FUNCT_SOP34,
    FUNCT_SOP35, FUNCT_SOP36, FUNCT_SOP37, FUNCT_SUB, OPCODE_LW, OPCODE_ORI, OPCODE_SPECIAL,
    OPCODE_SW,
};
use crate::error::DatapathError;
use crate::instruction::{IType, Instruction, RType};

verus! {

/// The operation class chosen by the opcode.
#[derive(Clone, Copy, Debug, PartialEq, Eq, Structural)]
pub enum AluOp {
    Addition,
    Subtraction,
    SetOnLessThanSigned,
    SetOnLessThanUnsigned,
    And,
    Or,
    LeftShift16,
    /// The operation is given by the function code.
    UseFunctField,
}

/// The operation the ALU performs.
#[derive(Clone, Copy, Debug, PartialEq, Eq, Structural)]
pub enum AluControl {
    Addition,
    Subtraction,
    SetOnLessThanSigned,
    SetOnLessThanUnsigned,
    And,
    Or,
    LeftShift16,
    Not,
    MultiplicationSigned,
    MultiplicationUnsigned,
    DivisionSigned,
    DivisionUnsigned,
}

/// The source of the ALU's second operand.
#[derive(Clone, Copy, Debug, PartialEq, Eq, Structural)]
pub enum AluSrc {
    ReadRegister2,
    SignExtendedImmediate,
    ZeroExtendedImmediate,
}

/// How far the sign-extended immediate is shifted left before the ALU.
#[derive(Clone, Copy, Debug, PartialEq, Eq, Structural)]
pub enum ImmShift {
    Shift0,
    Shift16,
    Shift32,
    Shift48,
}

#[derive(Clone, Copy, Debug, PartialEq, Eq, Structural)]
pub enum Branch {
    NoBranch,
    YesBranch,
}

#[derive(Clone, Copy, Debug, PartialEq, Eq, Structural)]
pub enum Jump {
    NoJump,
    YesJump,
}

#[derive(Clone, Copy, Debug, PartialEq, Eq, Structural)]
pub enum MemRead {
    NoRead,
    YesRead,
}

#[derive(Clone, Copy, Debug, PartialEq, Eq, Structural)]
pub enum MemWrite {
    NoWrite,
    YesWrite,
}

/// Whether the value written back comes from the ALU or from memory.
#[derive(Clone, Copy, Debug, PartialEq, Eq, Structural)]
pub enum MemToReg {
    UseAlu,
    UseMemory,
}

/// The unit whose value a store writes to memory.
#[derive(Clone, Copy, Debug, PartialEq, Eq, Structural)]
pub enum MemWriteSrc {
    PrimaryUnit,
    FloatingPointUnit,
}

/// Which instruction field names the destination register.
#[derive(Clone, Copy, Debug, PartialEq, Eq, Structural)]
pub enum RegDst {
    /// The `rs` field.
    Reg1,
    /// The `rt` field.
    Reg2,
    /// The `rd` field.
    Reg3,
}

/// Whether an operation works on 32-bit words or 64-bit doublewords.
#[derive(Clone, Copy, Debug, PartialEq, Eq, Structural)]
pub enum RegWidth {
    Word,
    DoubleWord,
}

#[derive(Clone, Copy, Debug, PartialEq, Eq, Structural)]
pub enum RegWrite {
    NoWrite,
    YesWrite,
}

/// The full set of control signals for one instruction.
#[derive(Clone, Copy, Debug, PartialEq, Eq, Structural)]
pub struct ControlSignals {
    pub alu_control: AluControl,
    pub alu_op: AluOp,
    pub alu_src: AluSrc,
    pub branch: Branch,
    pub imm_shift: ImmShift,
    pub jump: Jump,
    pub mem_read: MemRead,
    pub mem_to_reg: MemToReg,
    pub mem_write: MemWrite,
    pub mem_write_src: MemWriteSrc,
    pub reg_dst: RegDst,
    pub reg_width: RegWidth,
    pub reg_write: RegWrite,
}

/// The signals before any instruction is decoded: nothing is read,
/// written or claimed.
pub fn idle_signals() -> (s: ControlSignals)
    ensures
        s == coprocessor_signals(),
{
    ControlSignals {
        alu_control: AluControl::Addition,
        alu_op: AluOp::Addition,
        alu_src: AluSrc::ReadRegister2,
        branch: Branch::NoBranch,
        imm_shift: ImmShift::Shift0,
        jump: Jump::NoJump,
        mem_read: MemRead::NoRead,
        mem_to_reg: MemToReg::UseAlu,
        mem_write: MemWrite::NoWrite,
        mem_write_src: MemWriteSrc::PrimaryUnit,
        reg_dst: RegDst::Reg3,
        reg_width: RegWidth::DoubleWord,
        reg_write: RegWrite::NoWrite,
    }
}

/// The register width of each supported register-register function code.
pub open spec fn width_of_funct(funct: u8) -> Option<RegWidth> {
    if funct == FUNCT_ADD || funct == FUNCT_SUB || funct == FUNCT_SOP30 || funct == FUNCT_SOP31
        || funct == FUNCT_SOP32 || funct == FUNCT_SOP33 {
        Some(RegWidth::Word)
    } else if funct == FUNCT_DADD || funct == FUNCT_DSUB || funct == FUNCT_AND || funct == FUNCT_OR
        || funct == FUNCT_SLT || funct == FUNCT_SLTU || funct == FUNCT_SOP34 || funct
        == FUNCT_SOP35 || funct == FUNCT_SOP36 || funct == FUNCT_SOP37 {
        Some(RegWidth::DoubleWord)
    } else {
        None
    }
}

/// The ALU operation of a Release 6 special-operation group whose only
/// defined sub-function is `enc`.
pub open spec fn special_operation(funct: u8, shamt: u8, enc: u8, control: AluControl) -> Result<
    AluControl,
    DatapathError,
> {
    if shamt == enc {
        Ok(control)
    } else {
        Err(DatapathError::UnsupportedEncoding { funct, shamt })
    }
}

/// The ALU operation selected by an operation class and, for
/// [`AluOp::UseFunctField`], by the function code and sub-function.
pub open spec fn alu_control_of(alu_op: AluOp, funct: u8, shamt: u8) -> Result<
    AluControl,
    DatapathError,
> {
    match alu_op {
        AluOp::Addition => Ok(AluControl::Addition),
        AluOp::Subtraction => Ok(AluControl::Subtraction),
        AluOp::SetOnLessThanSigned => Ok(AluControl::SetOnLessThanSigned),
        AluOp::SetOnLessThanUnsigned => Ok(AluControl::SetOnLessThanUnsigned),
        AluOp::And => Ok(AluControl::And),
        AluOp::Or => Ok(AluControl::Or),
        AluOp::LeftShift16 => Ok(AluControl::LeftShift16),
        AluOp::UseFunctField => {
            if funct == FUNCT_ADD || funct == FUNCT_DADD {
                Ok(AluControl::Addition)
            } else if funct == FUNCT_SUB || funct == FUNCT_DSUB {
                Ok(AluControl::Subtraction)
            } else if funct == FUNCT_AND {
                Ok(AluControl::And)
            } else if funct == FUNCT_OR {
                Ok(AluControl::Or)
            } else if funct == FUNCT_SLT {
                Ok(AluControl::SetOnLessThanSigned)
            } else if funct == FUNCT_SLTU {
                Ok(AluControl::SetOnLessThanUnsigned)
            } else if funct == FUNCT_SOP32 || funct == FUNCT_SOP36 {
                special_operation(funct, shamt, ENC_DIV, AluControl::DivisionSigned)
            } else if funct == FUNCT_SOP33 || funct == FUNCT_SOP37 {
                special_operation(funct, shamt, ENC_DIVU, AluControl::DivisionUnsigned)
            } else if funct == FUNCT_SOP30 || funct == FUNCT_SOP34 {
                special_operation(funct, shamt, ENC_MUL, AluControl::MultiplicationSigned)
            } else if funct == FUNCT_SOP31 || funct == FUNCT_SOP35 {
                special_operation(funct, shamt, ENC_MULU, AluControl::MultiplicationUnsigned)
            } else {
                Err(DatapathError::UnsupportedFunct { opcode: OPCODE_SPECIAL, funct })
            }
        },
    }
}

/// The signals of a register-register instruction.
pub open spec fn rtype_signals(r: RType) -> Result<ControlSignals, DatapathError> {
    match width_of_funct(r.funct) {
        None => Err(DatapathError::UnsupportedFunct { opcode: r.op, funct: r.funct }),
        Some(width) => match alu_control_of(AluOp::UseFunctField, r.funct, r.shamt) {
            Err(e) => Err(e),
            Ok(control) => Ok(
                ControlSignals {
                    alu_control: control,
                    alu_op: AluOp::UseFunctField,
                    alu_src: AluSrc::ReadRegister2,
                    branch: Branch::NoBranch,
                    imm_shift: ImmShift::Shift0,
                    jump: Jump::NoJump,
                    mem_read: MemRead::NoRead,
                    mem_to_reg: MemToReg::UseAlu,
                    mem_write: MemWrite::NoWrite,
                    mem_write_src: MemWriteSrc::PrimaryUnit,
                    reg_dst: RegDst::Reg3,
                    reg_width: width,
                    reg_write: RegWrite::YesWrite,
                },
            ),
        },
    }
}

/// The signals of an instruction with an immediate: `ori` writes `rt` with
/// the OR of `rs` and the zero-extended immediate; `lw` and `sw` address
/// memory at `rs` plus the sign-extended immediate.
pub open spec fn itype_signals(i: IType) -> Result<ControlSignals, DatapathError> {
    if i.op == OPCODE_ORI {
        Ok(
            ControlSignals {
                alu_control: AluControl::Or,
                alu_op: AluOp::Or,
                alu_src: AluSrc::ZeroExtendedImmediate,
                branch: Branch::NoBranch,
                imm_shift: ImmShift::Shift0,
                jump: Jump::NoJump,
                mem_read: MemRead::NoRead,
                mem_to_reg: MemToReg::UseAlu,
                mem_write: MemWrite::NoWrite,
                mem_write_src: MemWriteSrc::PrimaryUnit,
                reg_dst: RegDst::Reg2,
                reg_width: RegWidth::DoubleWord,
                reg_write: RegWrite::YesWrite,
            },
        )
    } else if i.op == OPCODE_LW {
        Ok(
            ControlSignals {
                alu_control: AluControl::Addition,
                alu_op: AluOp::Addition,
                alu_src: AluSrc::SignExtendedImmediate,
                branch: Branch::NoBranch,
                imm_shift: ImmShift::Shift0,
                jump: Jump::NoJump,
                mem_read: MemRead::YesRead,
                mem_to_reg: MemToReg::UseMemory,
                mem_write: MemWrite::NoWrite,
                mem_write_src: MemWriteSrc::PrimaryUnit,
                reg_dst: RegDst::Reg2,
                reg_width: RegWidth::Word,
                reg_write: RegWrite::YesWrite,
            },
        )
    } else if i.op == OPCODE_SW {
        Ok(
            ControlSignals {
                alu_control: AluControl::Addition,
                alu_op: AluOp::Addition,
                alu_src: AluSrc::SignExtendedImmediate,
                branch: Branch::NoBranch,
                imm_shift: ImmShift::Shift0,
                jump: Jump::NoJump,
                mem_read: MemRead::NoRead,
                mem_to_reg: MemToReg::UseMemory,
                mem_write: MemWrite::YesWrite,
                mem_write_src: MemWriteSrc::PrimaryUnit,
                reg_dst: RegDst::Reg2,
                reg_width: RegWidth::Word,
                reg_write: RegWrite::NoWrite,
            },
        )
    } else {
        Err(DatapathError::UnsupportedOpcode { opcode: i.op })
    }
}

/// The signals of a coprocessor instruction: no branch, jump, memory access
/// or register write on the primary unit.
pub open spec fn coprocessor_signals() -> ControlSignals {
    ControlSignals {
        alu_control: AluControl::Addition,
        alu_op: AluOp::Addition,
        alu_src: AluSrc::ReadRegister2,
        branch: Branch::NoBranch,
        imm_shift: ImmShift::Shift0,
        jump: Jump::NoJump,
        mem_read: MemRead::NoRead,
        mem_to_reg: MemToReg::UseAlu,
        mem_write: MemWrite::NoWrite,
        mem_write_src: MemWriteSrc::PrimaryUnit,
        reg_dst: RegDst::Reg3,
        reg_width: RegWidth::DoubleWord,
        reg_write: RegWrite::NoWrite,
    }
}

/// The control signals of a decoded instruction, or the reason it has none.
pub open spec fn signals_of(instr: Instruction) -> Result<ControlSignals, DatapathError> {
    match instr {
        Instruction::RType(r) => rtype_signals(r),
        Instruction::IType(i) => itype_signals(i),
        Instruction::JType(j) => Err(DatapathError::UnsupportedOpcode { opcode: j.op }),
        Instruction::FpuRType(_) => Ok(coprocessor_signals()),
    }
}

/// The register width of a register-register function code, if the code is
/// supported.
pub fn reg_width_by_funct(funct: u8) -> (r: Option<RegWidth>)
    ensures
        r == width_of_funct(funct),
{
    if funct == FUNCT_ADD || funct == FUNCT_SUB || funct == FUNCT_SOP30 || funct == FUNCT_SOP31
        || funct == FUNCT_SOP32 || funct == FUNCT_SOP33 {
        Some(RegWidth::Word)
    } else if funct == FUNCT_DADD || funct == FUNCT_DSUB || funct == FUNCT_AND || funct == FUNCT_OR
        || funct == FUNCT_SLT || funct == FUNCT_SLTU || funct == FUNCT_SOP34 || funct
        == FUNCT_SOP35 || funct == FUNCT_SOP36 || funct == FUNCT_SOP37 {
        Some(RegWidth::DoubleWord)
    } else {
        None
    }
}

fn special_operation_for(funct: u8, shamt: u8, enc: u8, control: AluControl) -> (r: Result<
    AluControl,
    DatapathError,
>)
    ensures
        r == special_operation(funct, shamt, enc, control),
{
    if shamt == enc {
        Ok(control)
    } else {
        Err(DatapathError::UnsupportedEncoding { funct, shamt })
    }
}

/// Derives the ALU operation; for [`AluOp::UseFunctField`] the function code
/// selects the family and, for the multiply and divide groups, the
/// shift-amount field selects the sub-function.
pub fn alu_control_for(alu_op: AluOp, funct: u8, shamt: u8) -> (r: Result<
    AluControl,
    DatapathError,
>)
    ensures
        r == alu_control_of(alu_op, funct, shamt),
{
    match alu_op {
        AluOp::Addition => Ok(AluControl::Addition),
        AluOp::Subtraction => Ok(AluControl::Subtraction),
        AluOp::SetOnLessThanSigned => Ok(AluControl::SetOnLessThanSigned),
        AluOp::SetOnLessThanUnsigned => Ok(AluControl::SetOnLessThanUnsigned),
        AluOp::And => Ok(AluControl::And),
        AluOp::Or => Ok(AluControl::Or),
        AluOp::LeftShift16 => Ok(AluControl::LeftShift16),
        AluOp::UseFunctField => {
            if funct == FUNCT_ADD || funct == FUNCT_DADD {
                Ok(AluControl::Addition)
            } else if funct == FUNCT_SUB || funct == FUNCT_DSUB {
                Ok(AluControl::Subtraction)
            } else if funct == FUNCT_AND {
                Ok(AluControl::And)
            } else if funct == FUNCT_OR {
                Ok(AluControl::Or)
            } else if funct == FUNCT_SLT {
                Ok(AluControl::SetOnLessThanSigned)
            } else if funct == FUNCT_SLTU {
                Ok(AluControl::SetOnLessThanUnsigned)
            } else if funct == FUNCT_SOP32 || funct == FUNCT_SOP36 {
                special_operation_for(funct, shamt, ENC_DIV, AluControl::DivisionSigned)
            } else if funct == FUNCT_SOP33 || funct == FUNCT_SOP37 {
                special_operation_for(funct, shamt, ENC_DIVU, AluControl::DivisionUnsigned)
            } else if funct == FUNCT_SOP30 || funct == FUNCT_SOP34 {
                special_operation_for(funct, shamt, ENC_MUL, AluControl::MultiplicationSigned)
            } else if funct == FUNCT_SOP31 || funct == FUNCT_SOP35 {
                special_operation_for(funct, shamt, ENC_MULU, AluControl::MultiplicationUnsigned)
            } else {
                Err(DatapathError::UnsupportedFunct { opcode: OPCODE_SPECIAL, funct })
            }
        },
    }
}

/// The signals of a register-register instruction; fails on a function
/// code, or sub-function, that is not supported.
pub fn rtype_control_signals(r: RType) -> (s: Result<ControlSignals, DatapathError>)
    ensures
        s == rtype_signals(r),
{
    let width = match reg_width_by_funct(r.funct) {
        Some(width) => width,
        None => {
            return Err(DatapathError::UnsupportedFunct { opcode: r.op, funct: r.funct });
        },
    };
    let control = alu_control_for(AluOp::UseFunctField, r.funct, r.shamt)?;
    Ok(
        ControlSignals {
            alu_control: control,
            alu_op: AluOp::UseFunctField,
            alu_src: AluSrc::ReadRegister2,
            branch: Branch::NoBranch,
            imm_shift: ImmShift::Shift0,
            jump: Jump::NoJump,
            mem_read: MemRead::NoRead,
            mem_to_reg: MemToReg::UseAlu,
            mem_write: MemWrite::NoWrite,
            mem_write_src: MemWriteSrc::PrimaryUnit,
            reg_dst: RegDst::Reg3,
            reg_width: width,
            reg_write: RegWrite::YesWrite,
        },
    )
}

/// The signals of an instruction with an immediate; fails on an opcode
/// with no signal template.
pub fn itype_control_signals(i: IType) -> (s: Result<ControlSignals, DatapathError>)
    ensures
        s == itype_signals(i),
{
    if i.op == OPCODE_ORI {
        Ok(
            ControlSignals {
                alu_control: AluControl::Or,
                alu_op: AluOp::Or,
                alu_src: AluSrc::ZeroExtendedImmediate,
                branch: Branch::NoBranch,
                imm_shift: ImmShift::Shift0,
                jump: Jump::NoJump,
                mem_read: MemRead::NoRead,
                mem_to_reg: MemToReg::UseAlu,
                mem_write: MemWrite::NoWrite,
                mem_write_src: MemWriteSrc::PrimaryUnit,
                reg_dst: RegDst::Reg2,
                reg_width: RegWidth::DoubleWord,
                reg_write: RegWrite::YesWrite,
            },
        )
    } else if i.op == OPCODE_LW {
        Ok(
            ControlSignals {
                alu_control: AluControl::Addition,
                alu_op: AluOp::Addition,
                alu_src: AluSrc::SignExtendedImmediate,
                branch: Branch::NoBranch,
                imm_shift: ImmShift::Shift0,
                jump: Jump::NoJump,
                mem_read: MemRead::YesRead,
                mem_to_reg: MemToReg::UseMemory,
                mem_write: MemWrite::NoWrite,
                mem_write_src: MemWriteSrc::PrimaryUnit,
                reg_dst: RegDst::Reg2,
                reg_width: RegWidth::Word,
                reg_write: RegWrite::YesWrite,
            },
        )
    } else if i.op == OPCODE_SW {
        Ok(
            ControlSignals {
                alu_control: AluControl::Addition,
                alu_op: AluOp::Addition,
                alu_src: AluSrc::SignExtendedImmediate,
                branch: Branch::NoBranch,
                imm_shift: ImmShift::Shift0,
                jump: Jump::NoJump,
                mem_read: MemRead::NoRead,
                mem_to_reg: MemToReg::UseMemory,
                mem_write: MemWrite::YesWrite,
                mem_write_src: MemWriteSrc::PrimaryUnit,
                reg_dst: RegDst::Reg2,
                reg_width: RegWidth::Word,
                reg_write: RegWrite::NoWrite,
            },
        )
    } else {
        Err(DatapathError::UnsupportedOpcode { opcode: i.op })
    }
}

/// The control signals of a decoded instruction. Jumps are not supported;
/// coprocessor instructions get a bundle with no effect on the primary unit.
pub fn control_signals_for(instr: &Instruction) -> (s: Result<ControlSignals, DatapathError>)
    ensures
        s == signals_of(*instr),
{
    match instr {
        Instruction::RType(r) => rtype_control_signals(*r),
        Instruction::IType(i) => itype_control_signals(*i),
        Instruction::JType(j) => Err(DatapathError::UnsupportedOpcode { opcode: j.op }),
        Instruction::FpuRType(_) => Ok(idle_signals()),
    }
}

} // verus!
