//! The direct interpreter: it applies an instruction's architectural
//! effects in one step, dispatching on the opcode and function code without
//! control signals or stages.
//!
//! It follows the same arithmetic as the staged datapath, but an
//! instruction it does not support is reported and changes nothing, where
//! the staged datapath stops. Register 0 is cleared after every
//! instruction. Loads and stores address memory, and a loaded word is
//! sign-extended, as in the staged datapath.

use vstd::prelude::*;

use crate::alu::{alu_operation, alu_result, sign_extend32, sign_extend_word, wrap64};
use crate::constants::{
    ENC_DIV, ENC_DIVU, ENC_MUL, ENC_MULU, FUNCT_ADD, FUNCT_DADD, FUNCT_DSUB, FUNCT_SOP30,
    FUNCT_SOP31, FUNCT_SOP32, FUNCT_SOP33, FUNCT_SOP34, FUNCT_SOP35, FUNCT_SOP36, FUNCT_SOP37,
    FUNCT_SUB, OPCODE_LW, OPCODE_ORI, OPCODE_SW,
};
use crate::control_signals::{AluControl, RegWidth};
use crate::datapath::{loaded, sign_extend16, stored};
use crate::error::DatapathError;
use crate::instruction::{IType, Instruction, RType};
use crate::memory::Memory;
use crate::registers::{read_reg, GpRegisters};

verus! {

/// The interpreter. It holds no state of its own.
#[derive(Clone, Copy, Debug)]
pub struct TradCore {}

/// The ALU operation and width of a register-register instruction the
/// interpreter supports: 32- and 64-bit add and subtract, and signed and
/// unsigned multiply and divide at both widths.
pub open spec fn trad_operation(r: RType) -> Option<(AluControl, RegWidth)> {
    let f = r.funct;
    if f == FUNCT_ADD {
        Some((AluControl::Addition, RegWidth::Word))
    } else if f == FUNCT_SUB {
        Some((AluControl::Subtraction, RegWidth::Word))
    } else if f == FUNCT_DADD {
        Some((AluControl::Addition, RegWidth::DoubleWord))
    } else if f == FUNCT_DSUB {
        Some((AluControl::Subtraction, RegWidth::DoubleWord))
    } else if f == FUNCT_SOP30 && r.shamt == ENC_MUL {
        Some((AluControl::MultiplicationSigned, RegWidth::Word))
    } else if f == FUNCT_SOP31 && r.shamt == ENC_MULU {
        Some((AluControl::MultiplicationUnsigned, RegWidth::Word))
    } else if f == FUNCT_SOP32 && r.shamt == ENC_DIV {
        Some((AluControl::DivisionSigned, RegWidth::Word))
    } else if f == FUNCT_SOP33 && r.shamt == ENC_DIVU {
        Some((AluControl::DivisionUnsigned, RegWidth::Word))
    } else if f == FUNCT_SOP34 && r.shamt == ENC_MUL {
        Some((AluControl::MultiplicationSigned, RegWidth::DoubleWord))
    } else if f == FUNCT_SOP35 && r.shamt == ENC_MULU {
        Some((AluControl::MultiplicationUnsigned, RegWidth::DoubleWord))
    } else if f == FUNCT_SOP36 && r.shamt == ENC_DIV {
        Some((AluControl::DivisionSigned, RegWidth::DoubleWord))
    } else if f == FUNCT_SOP37 && r.shamt == ENC_DIVU {
        Some((AluControl::DivisionUnsigned, RegWidth::DoubleWord))
    } else {
        None
    }
}

/// The function codes whose meaning the shift-amount field refines.
pub open spec fn is_special_operation(funct: u8) -> bool {
    FUNCT_SOP30 <= funct <= FUNCT_SOP37
}

/// Why the interpreter rejects a register-register instruction.
pub open spec fn trad_rtype_error(r: RType) -> DatapathError {
    if is_special_operation(r.funct) {
        DatapathError::UnsupportedEncoding { funct: r.funct, shamt: r.shamt }
    } else {
        DatapathError::UnsupportedFunct { opcode: r.op, funct: r.funct }
    }
}

/// Register `d` set to `v`, for `d` one of the 32 registers.
pub open spec fn set_reg(gpr: Seq<u64>, d: int, v: u64) -> Seq<u64> {
    if 0 <= d < 32 {
        gpr.update(d, v)
    } else {
        gpr
    }
}

/// The address of a load or store: the base register plus the
/// sign-extended offset, added at word width as the staged datapath adds
/// them, so the low 32 bits of the sum, sign-extended.
pub open spec fn effective_address(gpr: Seq<u64>, i: IType) -> u64 {
    alu_result(
        AluControl::Addition,
        RegWidth::Word,
        read_reg(gpr, i.rs as int),
        sign_extend16(i.immediate as u32),
    )
}

/// The registers and memory after an instruction of the interpreter,
/// before register 0 is cleared; or why it is not supported.
pub open spec fn trad_effect(instr: Instruction, gpr: Seq<u64>, mem: Seq<u8>) -> Result<
    (Seq<u64>, Seq<u8>),
    DatapathError,
> {
    match instr {
        Instruction::RType(r) => match trad_operation(r) {
            None => Err(trad_rtype_error(r)),
            Some((control, width)) => Ok(
                (
                    set_reg(
                        gpr,
                        r.rd as int,
                        alu_result(
                            control,
                            width,
                            read_reg(gpr, r.rs as int),
                            read_reg(gpr, r.rt as int),
                        ),
                    ),
                    mem,
                ),
            ),
        },
        Instruction::IType(i) => if i.op == OPCODE_ORI {
            Ok((set_reg(gpr, i.rt as int, read_reg(gpr, i.rs as int) | (i.immediate as u64)), mem))
        } else if i.op == OPCODE_LW {
            Ok(
                (
                    set_reg(
                        gpr,
                        i.rt as int,
                        sign_extend32(loaded(mem, effective_address(gpr, i), RegWidth::Word)),
                    ),
                    mem,
                ),
            )
        } else if i.op == OPCODE_SW {
            Ok(
                (
                    gpr,
                    stored(
                        mem,
                        effective_address(gpr, i),
                        read_reg(gpr, i.rt as int) % 0x1_0000_0000,
                        RegWidth::Word,
                    ),
                ),
            )
        } else {
            Err(DatapathError::UnsupportedOpcode { opcode: i.op })
        },
        Instruction::JType(j) => Err(DatapathError::UnsupportedOpcode { opcode: j.op }),
        Instruction::FpuRType(_) => Ok((gpr, mem)),
    }
}

fn trad_operation_for(r: RType) -> (o: Option<(AluControl, RegWidth)>)
    ensures
        o == trad_operation(r),
{
    let f = r.funct;
    if f == FUNCT_ADD {
        Some((AluControl::Addition, RegWidth::Word))
    } else if f == FUNCT_SUB {
        Some((AluControl::Subtraction, RegWidth::Word))
    } else if f == FUNCT_DADD {
        Some((AluControl::Addition, RegWidth::DoubleWord))
    } else if f == FUNCT_DSUB {
        Some((AluControl::Subtraction, RegWidth::DoubleWord))
    } else if f == FUNCT_SOP30 && r.shamt == ENC_MUL {
        Some((AluControl::MultiplicationSigned, RegWidth::Word))
    } else if f == FUNCT_SOP31 && r.shamt == ENC_MULU {
        Some((AluControl::MultiplicationUnsigned, RegWidth::Word))
    } else if f == FUNCT_SOP32 && r.shamt == ENC_DIV {
        Some((AluControl::DivisionSigned, RegWidth::Word))
    } else if f == FUNCT_SOP33 && r.shamt == ENC_DIVU {
        Some((AluControl::DivisionUnsigned, RegWidth::Word))
    } else if f == FUNCT_SOP34 && r.shamt == ENC_MUL {
        Some((AluControl::MultiplicationSigned, RegWidth::DoubleWord))
    } else if f == FUNCT_SOP35 && r.shamt == ENC_MULU {
        Some((AluControl::MultiplicationUnsigned, RegWidth::DoubleWord))
    } else if f == FUNCT_SOP36 && r.shamt == ENC_DIV {
        Some((AluControl::DivisionSigned, RegWidth::DoubleWord))
    } else if f == FUNCT_SOP37 && r.shamt == ENC_DIVU {
        Some((AluControl::DivisionUnsigned, RegWidth::DoubleWord))
    } else {
        None
    }
}

/// Sets register `d`, for `d` one of the 32 registers.
fn set_register(registers: &mut GpRegisters, d: u8, v: u64)
    ensures
        final(registers).gpr@ == set_reg(old(registers).gpr@, d as int, v),
        final(registers).pc == old(registers).pc,
{
    if (d as usize) < 32 {
        registers.gpr[d as usize] = v;
    }
}

/// The base register plus the sign-extended offset, added at word width.
fn address_of(registers: &GpRegisters, i: IType) -> (a: u64)
    ensures
        a == effective_address(registers.gpr@, i),
{
    let imm = i.immediate as u32;
    proof {
        crate::datapath::lemma_sign_extend16(imm);
    }
    let offset = imm as i16 as i64 as u64;
    alu_operation(AluControl::Addition, RegWidth::Word, registers.read(i.rs as usize), offset)
}

impl TradCore {
    /// The interpreter.
    pub fn new() -> (t: TradCore) {
        TradCore {  }
    }

    /// Applies `instruction` to the registers and memory. A supported
    /// instruction takes effect and the program counter moves on by 4. An
    /// unsupported one is reported and takes no effect. Either way register
    /// 0 is cleared afterwards. A failed load reads as zero; a failed store
    /// is ignored.
    pub fn execute_instruction(
        &mut self,
        instruction: &Instruction,
        memory: &mut Memory,
        registers: &mut GpRegisters,
    ) -> (r: Result<(), DatapathError>)
        ensures
            final(registers).gpr[0] == 0,
            match trad_effect(*instruction, old(registers).gpr@, old(memory)@) {
                Ok((gpr, mem)) => {
                    &&& r is Ok
                    &&& final(registers).gpr@ == gpr.update(0, 0)
                    &&& final(registers).pc == wrap64(old(registers).pc + 4)
                    &&& final(memory)@ == mem
                },
                Err(e) => {
                    &&& r == Err::<(), DatapathError>(e)
                    &&& final(registers).gpr@ == old(registers).gpr@.update(0, 0)
                    &&& final(registers).pc == old(registers).pc
                    &&& final(memory)@ == old(memory)@
                },
            },
    {
        let result = self.apply(instruction, memory, registers);
        registers.gpr[0] = 0;
        result
    }

    /// The effect of `instruction`, before register 0 is cleared.
    fn apply(&self, instruction: &Instruction, memory: &mut Memory, registers: &mut GpRegisters) -> (r:
        Result<(), DatapathError>)
        ensures
            match trad_effect(*instruction, old(registers).gpr@, old(memory)@) {
                Ok((gpr, mem)) => {
                    &&& r is Ok
                    &&& final(registers).gpr@ == gpr
                    &&& final(registers).pc == wrap64(old(registers).pc + 4)
                    &&& final(memory)@ == mem
                },
                Err(e) => {
                    &&& r == Err::<(), DatapathError>(e)
                    &&& *final(registers) == *old(registers)
                    &&& final(memory)@ == old(memory)@
                },
            },
    {
        match instruction {
            Instruction::RType(r) => {
                let (control, width) = match trad_operation_for(*r) {
                    Some(op) => op,
                    None => {
                        if FUNCT_SOP30 <= r.funct && r.funct <= FUNCT_SOP37 {
                            return Err(
                                DatapathError::UnsupportedEncoding { funct: r.funct, shamt: r.shamt },
                            );
                        } else {
                            return Err(
                                DatapathError::UnsupportedFunct { opcode: r.op, funct: r.funct },
                            );
                        }
                    },
                };
                let v = alu_operation(
                    control,
                    width,
                    registers.read(r.rs as usize),
                    registers.read(r.rt as usize),
                );
                set_register(registers, r.rd, v);
            },
            Instruction::IType(i) => {
                if i.op == OPCODE_ORI {
                    let v = registers.read(i.rs as usize) | (i.immediate as u64);
                    set_register(registers, i.rt, v);
                } else if i.op == OPCODE_LW {
                    let address = address_of(registers, *i);
                    let w = match memory.load_word(address) {
                        Ok(w) => w as u64,
                        Err(_) => 0,
                    };
                    set_register(registers, i.rt, sign_extend_word(w));
                } else if i.op == OPCODE_SW {
                    let address = address_of(registers, *i);
                    let data = registers.read(i.rt as usize);
                    proof {
                        assert(((data % 0x1_0000_0000) as u32) == (data as u32)) by (bit_vector);
                    }
                    let _ = memory.store_word(address, #[verifier::truncate] (data as u32));
                } else {
                    return Err(DatapathError::UnsupportedOpcode { opcode: i.op });
                }
            },
            Instruction::JType(j) => {
                return Err(DatapathError::UnsupportedOpcode { opcode: j.op });
            },
            Instruction::FpuRType(_) => {},
        }
        proof {
            if registers.pc as int + 4 >= 0x1_0000_0000_0000_0000int {
                vstd::arithmetic::div_mod::lemma_mod_multiples_vanish(
                    1,
                    registers.pc + 4 - 0x1_0000_0000_0000_0000int,
                    0x1_0000_0000_0000_0000int,
                );
            }
        }
        registers.pc = registers.pc.wrapping_add(4);
        Ok(())
    }
}

impl Default for TradCore {
    fn default() -> (t: TradCore) {
        TradCore::new()
    }
}

} // verus!
