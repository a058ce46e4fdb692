//! The general-purpose register file: 32 doublewords and a program counter.
//! Register 0 always reads as zero.

use vstd::prelude::*;

verus! {

/// The general-purpose registers by their conventional names, and the
/// program counter.
#[derive(Clone, Copy, Debug, PartialEq, Eq, Structural)]
pub enum GpRegisterType {
    Pc,
    Zero,
    At,
    V0,
    V1,
    A0,
    A1,
    A2,
    A3,
    T0,
    T1,
    T2,
    T3,
    T4,
    T5,
    T6,
    T7,
    S0,
    S1,
    S2,
    S3,
    S4,
    S5,
    S6,
    S7,
    T8,
    T9,
    K0,
    K1,
    Gp,
    Sp,
    Fp,
    Ra,
}

/// The register number of a named general-purpose register; `None` for the
/// program counter.
pub open spec fn number_of(r: GpRegisterType) -> Option<usize> {
    match r {
        GpRegisterType::Pc => None,
        GpRegisterType::Zero => Some(0),
        GpRegisterType::At => Some(1),
        GpRegisterType::V0 => Some(2),
        GpRegisterType::V1 => Some(3),
        GpRegisterType::A0 => Some(4),
        GpRegisterType::A1 => Some(5),
        GpRegisterType::A2 => Some(6),
        GpRegisterType::A3 => Some(7),
        GpRegisterType::T0 => Some(8),
        GpRegisterType::T1 => Some(9),
        GpRegisterType::T2 => Some(10),
        GpRegisterType::T3 => Some(11),
        GpRegisterType::T4 => Some(12),
        GpRegisterType::T5 => Some(13),
        GpRegisterType::T6 => Some(14),
        GpRegisterType::T7 => Some(15),
        GpRegisterType::S0 => Some(16),
        GpRegisterType::S1 => Some(17),
        GpRegisterType::S2 => Some(18),
        GpRegisterType::S3 => Some(19),
        GpRegisterType::S4 => Some(20),
        GpRegisterType::S5 => Some(21),
        GpRegisterType::S6 => Some(22),
        GpRegisterType::S7 => Some(23),
        GpRegisterType::T8 => Some(24),
        GpRegisterType::T9 => Some(25),
        GpRegisterType::K0 => Some(26),
        GpRegisterType::K1 => Some(27),
        GpRegisterType::Gp => Some(28),
        GpRegisterType::Sp => Some(29),
        GpRegisterType::Fp => Some(30),
        GpRegisterType::Ra => Some(31),
    }
}

/// The value read from register `i`: register 0, and any number past the
/// last register, read as zero.
pub open spec fn read_reg(gpr: Seq<u64>, i: int) -> u64 {
    if 0 < i < 32 {
        gpr[i]
    } else {
        0
    }
}

/// The value of a named register: the program counter, or a
/// general-purpose register as [`read_reg`] reads it.
pub open spec fn register_value(gpr: Seq<u64>, pc: u64, r: GpRegisterType) -> u64 {
    match number_of(r) {
        None => pc,
        Some(i) => read_reg(gpr, i as int),
    }
}

/// The general-purpose registers and the program counter.
#[derive(Clone, Copy, Debug)]
pub struct GpRegisters {
    pub pc: u64,
    pub gpr: [u64; 32],
}

impl GpRegisterType {
    /// The register number, or `None` for the program counter.
    pub fn number(self) -> (r: Option<usize>)
        ensures
            r == number_of(self),
    {
        match self {
            GpRegisterType::Pc => None,
            GpRegisterType::Zero => Some(0),
            GpRegisterType::At => Some(1),
            GpRegisterType::V0 => Some(2),
            GpRegisterType::V1 => Some(3),
            GpRegisterType::A0 => Some(4),
            GpRegisterType::A1 => Some(5),
            GpRegisterType::A2 => Some(6),
            GpRegisterType::A3 => Some(7),
            GpRegisterType::T0 => Some(8),
            GpRegisterType::T1 => Some(9),
            GpRegisterType::T2 => Some(10),
            GpRegisterType::T3 => Some(11),
            GpRegisterType::T4 => Some(12),
            GpRegisterType::T5 => Some(13),
            GpRegisterType::T6 => Some(14),
            GpRegisterType::T7 => Some(15),
            GpRegisterType::S0 => Some(16),
            GpRegisterType::S1 => Some(17),
            GpRegisterType::S2 => Some(18),
            GpRegisterType::S3 => Some(19),
            GpRegisterType::S4 => Some(20),
            GpRegisterType::S5 => Some(21),
            GpRegisterType::S6 => Some(22),
            GpRegisterType::S7 => Some(23),
            GpRegisterType::T8 => Some(24),
            GpRegisterType::T9 => Some(25),
            GpRegisterType::K0 => Some(26),
            GpRegisterType::K1 => Some(27),
            GpRegisterType::Gp => Some(28),
            GpRegisterType::Sp => Some(29),
            GpRegisterType::Fp => Some(30),
            GpRegisterType::Ra => Some(31),
        }
    }
}

impl GpRegisters {
    /// All registers and the program counter at zero.
    pub fn new() -> (r: GpRegisters)
        ensures
            r.pc == 0,
            forall|i: int| 0 <= i < 32 ==> #[trigger] r.gpr[i] == 0,
    {
        GpRegisters { pc: 0, gpr: [0u64; 32] }
    }

    /// Reads register `i`; register 0 reads as zero whatever it holds.
    pub fn read(&self, i: usize) -> (r: u64)
        ensures
            r == read_reg(self.gpr@, i as int),
    {
        if 0 < i && i < 32 {
            self.gpr[i]
        } else {
            0
        }
    }

    /// Reads a register by name; the program counter too.
    pub fn get(&self, register: GpRegisterType) -> (r: u64)
        ensures
            r == register_value(self.gpr@, self.pc, register),
    {
        match register.number() {
            None => self.pc,
            Some(i) => self.read(i),
        }
    }

    /// Writes a register by name; the program counter too. A write to
    /// register 0 is ignored.
    pub fn set(&mut self, register: GpRegisterType, value: u64)
        ensures
            match number_of(register) {
                None => final(self).pc == value && final(self).gpr == old(self).gpr,
                Some(i) => final(self).pc == old(self).pc && if i == 0 {
                    final(self).gpr == old(self).gpr
                } else {
                    final(self).gpr@ == old(self).gpr@.update(i as int, value)
                },
            },
    {
        match register.number() {
            None => {
                self.pc = value;
            },
            Some(i) => {
                if i != 0 {
                    self.gpr[i] = value;
                }
            },
        }
    }
}

impl core::ops::Index<GpRegisterType> for GpRegisters {
    type Output = u64;

    /// The program counter or the general-purpose register named.
    fn index(&self, register: GpRegisterType) -> (r: &u64)
        ensures
            *r == match number_of(register) {
                None => self.pc,
                Some(i) => self.gpr[i as int],
            },
    {
        match register.number() {
            None => &self.pc,
            Some(i) => &self.gpr[i],
        }
    }
}

impl core::ops::IndexMut<GpRegisterType> for GpRegisters {
    /// The program counter or the general-purpose register named, for
    /// writing; unlike [`GpRegisters::set`], this reaches register 0 too.
    fn index_mut(&mut self, register: GpRegisterType) -> (r: &mut u64)
        ensures
            *r == match number_of(register) {
                None => old(self).pc,
                Some(i) => old(self).gpr[i as int],
            },
            match number_of(register) {
                None => final(self).pc == *final(r) && final(self).gpr == old(self).gpr,
                Some(i) => final(self).pc == old(self).pc && final(self).gpr@ == old(self).gpr@.update(
                    i as int,
                    *final(r),
                ),
            },
    {
        match register.number() {
            None => &mut self.pc,
            Some(i) => &mut self.gpr[i],
        }
    }
}

impl Default for GpRegisters {
    fn default() -> (r: GpRegisters)
        ensures
            r.pc == 0,
            forall|i: int| 0 <= i < 32 ==> #[trigger] r.gpr[i] == 0,
    {
        GpRegisters::new()
    }
}

} // verus!
