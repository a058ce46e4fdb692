//! Opcode, function-code and sub-function encodings understood by the emulator.

use vstd::prelude::*;

verus! {

/// Register-register operations; the `funct` field selects the operation.
pub const OPCODE_SPECIAL: u8 = 0b000000;

/// Unconditional jump.
pub const OPCODE_J: u8 = 0b000010;

/// Jump and link.
pub const OPCODE_JAL: u8 = 0b000011;

/// Bitwise OR with a zero-extended immediate.
pub const OPCODE_ORI: u8 = 0b001101;

/// Floating-point coprocessor instructions.
pub const OPCODE_COP1: u8 = 0b010001;

/// Load word.
pub const OPCODE_LW: u8 = 0b100011;

/// Store word.
pub const OPCODE_SW: u8 = 0b101011;

pub const FUNCT_ADD: u8 = 0b100000;

pub const FUNCT_SUB: u8 = 0b100010;

pub const FUNCT_AND: u8 = 0b100100;

pub const FUNCT_OR: u8 = 0b100101;

pub const FUNCT_SLT: u8 = 0b101010;

pub const FUNCT_SLTU: u8 = 0b101011;

pub const FUNCT_DADD: u8 = 0b101100;

pub const FUNCT_DSUB: u8 = 0b101110;

/// Release 6 "special operation" group of `mul`/`muh`.
pub const FUNCT_SOP30: u8 = 0b011000;

/// Release 6 "special operation" group of `mulu`/`muhu`.
pub const FUNCT_SOP31: u8 = 0b011001;

/// Release 6 "special operation" group of `div`/`mod`.
pub const FUNCT_SOP32: u8 = 0b011010;

/// Release 6 "special operation" group of `divu`/`modu`.
pub const FUNCT_SOP33: u8 = 0b011011;

/// Release 6 "special operation" group of `dmul`/`dmuh`.
pub const FUNCT_SOP34: u8 = 0b011100;

/// Release 6 "special operation" group of `dmulu`/`dmuhu`.
pub const FUNCT_SOP35: u8 = 0b011101;

/// Release 6 "special operation" group of `ddiv`/`dmod`.
pub const FUNCT_SOP36: u8 = 0b011110;

/// Release 6 "special operation" group of `ddivu`/`dmodu`.
pub const FUNCT_SOP37: u8 = 0b011111;

/// Sub-function (in the shift-amount field) selecting a signed multiply.
pub const ENC_MUL: u8 = 0b00010;

/// Sub-function (in the shift-amount field) selecting an unsigned multiply.
pub const ENC_MULU: u8 = 0b00010;

/// Sub-function (in the shift-amount field) selecting a signed divide.
pub const ENC_DIV: u8 = 0b00010;

/// Sub-function (in the shift-amount field) selecting an unsigned divide.
pub const ENC_DIVU: u8 = 0b00010;

} // verus!
