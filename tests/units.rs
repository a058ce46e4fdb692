#![allow(clippy::unusual_byte_groupings)]

use mips_datapath::{
    alu_operation, control_signals_for, AluControl, DatapathError, Instruction, IType, Memory,
    MemoryError, RType, RegWidth,
};

#[test]
fn alu_addition_wraps_at_each_width() {
    assert_eq!(alu_operation(AluControl::Addition, RegWidth::DoubleWord, u64::MAX, 2), 1);
    assert_eq!(
        alu_operation(AluControl::Addition, RegWidth::Word, 0x7fff_ffff, 1),
        0xffff_ffff_8000_0000
    );
    assert_eq!(
        alu_operation(AluControl::Subtraction, RegWidth::Word, 0, 1),
        u64::MAX
    );
}

#[test]
fn alu_division_by_zero_is_zero() {
    for width in [RegWidth::Word, RegWidth::DoubleWord] {
        assert_eq!(alu_operation(AluControl::DivisionSigned, width, 77, 0), 0);
        assert_eq!(alu_operation(AluControl::DivisionUnsigned, width, 77, 0), 0);
    }
}

#[test]
fn alu_word_unsigned_division_truncates_operands() {
    assert_eq!(
        alu_operation(AluControl::DivisionUnsigned, RegWidth::Word, 0x8000_0000, 2),
        0x4000_0000
    );
    assert_eq!(
        alu_operation(AluControl::DivisionUnsigned, RegWidth::Word, 0x1_0000_0009, 0x5_0000_0002),
        4
    );
    assert_eq!(
        alu_operation(AluControl::DivisionSigned, RegWidth::Word, 0x8000_0000, 2),
        0xffff_ffff_c000_0000
    );
}

#[test]
fn alu_signed_division_rounds_toward_zero() {
    let r = alu_operation(AluControl::DivisionSigned, RegWidth::DoubleWord, -7i64 as u64, 2);
    assert_eq!(r as i64, -3);
    let r = alu_operation(AluControl::DivisionSigned, RegWidth::DoubleWord, 7, -2i64 as u64);
    assert_eq!(r as i64, -3);
    let r = alu_operation(
        AluControl::DivisionSigned,
        RegWidth::DoubleWord,
        i64::MIN as u64,
        -1i64 as u64,
    );
    assert_eq!(r, i64::MIN as u64);
    let r = alu_operation(AluControl::DivisionUnsigned, RegWidth::DoubleWord, u64::MAX, 2);
    assert_eq!(r, u64::MAX / 2);
}

#[test]
fn alu_multiplication_keeps_low_bits() {
    let r = alu_operation(
        AluControl::MultiplicationUnsigned,
        RegWidth::DoubleWord,
        1 << 63,
        6,
    );
    assert_eq!(r, 0);
    let r = alu_operation(
        AluControl::MultiplicationSigned,
        RegWidth::DoubleWord,
        -3i64 as u64,
        5,
    );
    assert_eq!(r as i64, -15);
    let r = alu_operation(AluControl::MultiplicationSigned, RegWidth::Word, 0x1_0000, 0x1_8000);
    assert_eq!(r, 0xffff_ffff_8000_0000);
}

#[test]
fn alu_comparisons_and_logic() {
    let minus_one = u64::MAX;
    assert_eq!(alu_operation(AluControl::SetOnLessThanSigned, RegWidth::DoubleWord, minus_one, 0), 1);
    assert_eq!(alu_operation(AluControl::SetOnLessThanUnsigned, RegWidth::DoubleWord, minus_one, 0), 0);
    assert_eq!(alu_operation(AluControl::And, RegWidth::DoubleWord, 0b1100, 0b1010), 0b1000);
    assert_eq!(alu_operation(AluControl::Or, RegWidth::DoubleWord, 0b1100, 0b1010), 0b1110);
    assert_eq!(alu_operation(AluControl::LeftShift16, RegWidth::DoubleWord, 9, 3), 3 << 16);
    assert_eq!(alu_operation(AluControl::Not, RegWidth::DoubleWord, 0, 9), u64::MAX);
}

#[test]
fn decode_picks_variant_by_opcode() {
    let r = Instruction::decode(0b000000_10000_10001_10010_00011_100000).unwrap();
    assert_eq!(
        r,
        Instruction::RType(RType { op: 0, rs: 16, rt: 17, rd: 18, shamt: 3, funct: 0b100000 })
    );
    let i = Instruction::decode(0b100011_01000_10000_1111111111111100).unwrap();
    assert_eq!(
        i,
        Instruction::IType(IType { op: 0b100011, rs: 8, rt: 16, immediate: 0xfffc })
    );
    assert!(matches!(
        Instruction::decode(0b010001_10000_00000_00001_00010_000000),
        Ok(Instruction::FpuRType(_))
    ));
    assert!(matches!(
        Instruction::decode(0b000011_00000_00000_0000000000000001),
        Ok(Instruction::JType(_))
    ));
    assert_eq!(
        Instruction::decode(0b001000_00000_00000_0000000000000001),
        Err(DatapathError::UnsupportedOpcode { opcode: 0b001000 })
    );
}

#[test]
fn control_signals_of_supported_instructions() {
    let add = Instruction::decode(0b000000_10000_10001_10010_00000_100000).unwrap();
    let s = control_signals_for(&add).unwrap();
    assert_eq!(s.alu_control, AluControl::Addition);
    assert_eq!(s.reg_width, RegWidth::Word);
    let dmulu = Instruction::decode(0b000000_10000_10001_10010_00010_011101).unwrap();
    let s = control_signals_for(&dmulu).unwrap();
    assert_eq!(s.alu_control, AluControl::MultiplicationUnsigned);
    assert_eq!(s.reg_width, RegWidth::DoubleWord);
    let ddivu = Instruction::decode(0b000000_10000_10001_10010_00010_011111).unwrap();
    assert_eq!(
        control_signals_for(&ddivu).unwrap().alu_control,
        AluControl::DivisionUnsigned
    );
    let lw = Instruction::decode(0b100011_01000_10000_0000000000000100).unwrap();
    let s = control_signals_for(&lw).unwrap();
    assert_eq!(s.alu_control, AluControl::Addition);
    assert_eq!(s.reg_width, RegWidth::Word);
}

#[test]
fn control_signals_reject_unknown_encodings() {
    let sll = Instruction::decode(0b000000_10000_10001_10010_00000_000000).unwrap();
    assert_eq!(
        control_signals_for(&sll),
        Err(DatapathError::UnsupportedFunct { opcode: 0, funct: 0 })
    );
    let dmuh = Instruction::decode(0b000000_10000_10001_10010_00011_011100).unwrap();
    assert_eq!(
        control_signals_for(&dmuh),
        Err(DatapathError::UnsupportedEncoding { funct: 0b011100, shamt: 3 })
    );
}

#[test]
fn memory_is_big_endian_and_bounded() {
    let mut memory = Memory::default();
    memory.store_word(0, 0x1122_3344).unwrap();
    assert_eq!(&memory.memory[0..4], &[0x11, 0x22, 0x33, 0x44]);
    memory.store_double_word(8, 0x0102_0304_0506_0708).unwrap();
    assert_eq!(memory.load_double_word(8), Ok(0x0102_0304_0506_0708));
    assert_eq!(memory.load_word(12), Ok(0x0506_0708));
    let last = (64 * 1024 - 4) as u64;
    assert_eq!(memory.store_word(last, 7), Ok(()));
    assert_eq!(memory.load_word(last), Ok(7));
    assert_eq!(
        memory.load_word(last + 1),
        Err(MemoryError::OutOfBounds { address: last + 1 })
    );
    assert_eq!(
        memory.store_double_word(last, 1),
        Err(MemoryError::OutOfBounds { address: last })
    );
    assert_eq!(memory.load_word(last), Ok(7));
    assert_eq!(
        memory.load_word(u64::MAX),
        Err(MemoryError::OutOfBounds { address: u64::MAX })
    );
}
