//! The arithmetic-logic unit: a pure function of two 64-bit operands, the
//! register width and the operation.
//!
//! There are no overflow traps: sums, differences and products wrap, and a
//! division by zero yields 0. For 32-bit operations both operands are
//! reduced to their low 32 bits before the operation (read as unsigned for
//! an unsigned division, as signed otherwise), and the result is reduced to
//! its low 32 bits, sign-extended, after it.

use vstd::arithmetic::div_mod::{
    lemma_add_mod_noop, lemma_mod_mod, lemma_mod_multiples_vanish, lemma_mul_mod_noop_general,
    lemma_sub_mod_noop,
};
use vstd::math::abs;
use vstd::prelude::*;

use crate::control_signals::{AluControl, RegWidth};

verus! {

/// `x` modulo 2^64, as a doubleword.
pub open spec fn wrap64(x: int) -> u64 {
    (x % 0x1_0000_0000_0000_0000int) as u64
}

/// A doubleword read as a two's-complement number.
pub open spec fn signed64(x: u64) -> int {
    if x < 0x8000_0000_0000_0000int {
        x as int
    } else {
        x - 0x1_0000_0000_0000_0000int
    }
}

/// The low 32 bits of a doubleword read as a two's-complement number.
pub open spec fn signed_low32(x: u64) -> int {
    let w = x % 0x1_0000_0000u64;
    if w < 0x8000_0000 {
        w as int
    } else {
        w - 0x1_0000_0000int
    }
}

/// The low 32 bits of a doubleword, sign-extended to 64 bits.
pub open spec fn sign_extend32(x: u64) -> u64 {
    wrap64(signed_low32(x))
}

/// Division that rounds toward zero.
pub open spec fn quotient_toward_zero(a: int, b: int) -> int {
    let q: int = (abs(a) / abs(b)) as int;
    if (a < 0) != (b < 0) {
        -q
    } else {
        q
    }
}

/// The operation on two doublewords.
pub open spec fn operation(control: AluControl, x: u64, y: u64) -> u64 {
    match control {
        AluControl::Addition => wrap64(x + y),
        AluControl::Subtraction => wrap64(x - y),
        AluControl::SetOnLessThanSigned => if signed64(x) < signed64(y) {
            1
        } else {
            0
        },
        AluControl::SetOnLessThanUnsigned => if x < y {
            1
        } else {
            0
        },
        AluControl::And => x & y,
        AluControl::Or => x | y,
        AluControl::LeftShift16 => y << 16u64,
        AluControl::Not => !x,
        AluControl::MultiplicationSigned => wrap64(signed64(x) * signed64(y)),
        AluControl::MultiplicationUnsigned => wrap64(x * y),
        AluControl::DivisionSigned => if y == 0 {
            0
        } else {
            wrap64(quotient_toward_zero(signed64(x), signed64(y)))
        },
        AluControl::DivisionUnsigned => if y == 0 {
            0
        } else {
            x / y
        },
    }
}

/// An operand, or a result, as seen at the given width.
pub open spec fn at_width(width: RegWidth, x: u64) -> u64 {
    match width {
        RegWidth::Word => sign_extend32(x),
        RegWidth::DoubleWord => x,
    }
}

/// An operand as the operation sees it: at word width, the low 32 bits,
/// read as unsigned for an unsigned division and as signed otherwise. (For
/// the other unsigned operations, both readings give the same order and the
/// same low 32 bits of a product.)
pub open spec fn operand_of(control: AluControl, width: RegWidth, x: u64) -> u64 {
    if width == RegWidth::Word && control == AluControl::DivisionUnsigned {
        x % 0x1_0000_0000
    } else {
        at_width(width, x)
    }
}

/// What the ALU computes.
pub open spec fn alu_result(control: AluControl, width: RegWidth, a: u64, b: u64) -> u64 {
    at_width(width, operation(control, operand_of(control, width, a), operand_of(control, width, b)))
}

proof fn lemma_sign_extend32(x: u64)
    ensures
        (x as i32) as u64 == sign_extend32(x),
{
    let w = x % 0x1_0000_0000u64;
    if w < 0x8000_0000 {
        assert((x % 0x1_0000_0000u64) < 0x8000_0000 ==> (x as i32) as u64 == x % 0x1_0000_0000u64)
            by (bit_vector);
    } else {
        assert((x % 0x1_0000_0000u64) >= 0x8000_0000 ==> (x as i32) as u64 == x
            % 0x1_0000_0000u64 + 0xffff_ffff_0000_0000u64) by (bit_vector);
        assert((w - 0x1_0000_0000int) % 0x1_0000_0000_0000_0000int == w - 0x1_0000_0000int + 0x1_0000_0000_0000_0000int) by {
            lemma_mod_multiples_vanish(-1, w - 0x1_0000_0000int + 0x1_0000_0000_0000_0000int, 0x1_0000_0000_0000_0000int);
        }
    }
}

/// The low 32 bits of `x`, sign-extended.
pub fn sign_extend_word(x: u64) -> (r: u64)
    ensures
        r == sign_extend32(x),
{
    proof {
        lemma_sign_extend32(x);
    }
    x as i32 as u64
}

fn at_width_exec(width: RegWidth, x: u64) -> (r: u64)
    ensures
        r == at_width(width, x),
{
    match width {
        RegWidth::Word => sign_extend_word(x),
        RegWidth::DoubleWord => x,
    }
}

fn operand_exec(control: AluControl, width: RegWidth, x: u64) -> (r: u64)
    ensures
        r == operand_of(control, width, x),
{
    match (width, control) {
        (RegWidth::Word, AluControl::DivisionUnsigned) => {
            proof {
                assert((x as u32) as u64 == x % 0x1_0000_0000) by (bit_vector);
            }
            x as u32 as u64
        },
        _ => at_width_exec(width, x),
    }
}

proof fn lemma_signed_product_low_bits(x: u64, y: u64)
    ensures
        wrap64(signed64(x) * signed64(y)) == wrap64(x * y),
{
    let sx = signed64(x);
    let sy = signed64(y);
    let c1: int = if x < 0x8000_0000_0000_0000int { 0 } else { 1 };
    let c2: int = if y < 0x8000_0000_0000_0000int { 0 } else { 1 };
    let k = c1 * sy + c2 * sx + c1 * c2 * 0x1_0000_0000_0000_0000int;
    assert(x * y == 0x1_0000_0000_0000_0000int * k + sx * sy) by (nonlinear_arith)
        requires
            x == sx + c1 * 0x1_0000_0000_0000_0000int,
            y == sy + c2 * 0x1_0000_0000_0000_0000int,
            k == c1 * sy + c2 * sx + c1 * c2 * 0x1_0000_0000_0000_0000int,
    ;
    lemma_mod_multiples_vanish(k, sx * sy, 0x1_0000_0000_0000_0000int);
}

/// Signed division, rounding toward zero; the one overflowing case,
/// the most negative number divided by -1, wraps to itself.
fn divide_signed(x: u64, y: u64) -> (r: u64)
    requires
        y != 0,
    ensures
        r == wrap64(quotient_toward_zero(signed64(x), signed64(y))),
{
    let x_negative = x >= 0x8000_0000_0000_0000;
    let y_negative = y >= 0x8000_0000_0000_0000;
    let abs_x = if x_negative {
        0u64.wrapping_sub(x)
    } else {
        x
    };
    let abs_y = if y_negative {
        0u64.wrapping_sub(y)
    } else {
        y
    };
    assert(abs_x == abs(signed64(x)));
    assert(abs_y == abs(signed64(y)));
    let q = abs_x / abs_y;
    if x_negative != y_negative {
        proof {
            if q == 0 {
                assert(wrap64(-q) == 0);
            } else {
                lemma_mod_multiples_vanish(-1, 0x1_0000_0000_0000_0000int - q, 0x1_0000_0000_0000_0000int);
            }
        }
        0u64.wrapping_sub(q)
    } else {
        q
    }
}

/// The operation on two doublewords, with wrapping arithmetic and a zero
/// result for a zero divisor.
fn operate(control: AluControl, x: u64, y: u64) -> (r: u64)
    ensures
        r == operation(control, x, y),
{
    match control {
        AluControl::Addition => x.wrapping_add(y),
        AluControl::Subtraction => {
            proof {
                if x < y {
                    lemma_mod_multiples_vanish(-1, x - y + 0x1_0000_0000_0000_0000int, 0x1_0000_0000_0000_0000int);
                }
            }
            x.wrapping_sub(y)
        },
        AluControl::SetOnLessThanSigned => {
            let x_negative = x >= 0x8000_0000_0000_0000;
            let y_negative = y >= 0x8000_0000_0000_0000;
            let less = if x_negative != y_negative {
                x_negative
            } else {
                x < y
            };
            if less {
                1
            } else {
                0
            }
        },
        AluControl::SetOnLessThanUnsigned => if x < y {
            1
        } else {
            0
        },
        AluControl::And => x & y,
        AluControl::Or => x | y,
        AluControl::LeftShift16 => y << 16u64,
        AluControl::Not => !x,
        AluControl::MultiplicationSigned => {
            proof {
                lemma_signed_product_low_bits(x, y);
            }
            x.wrapping_mul(y)
        },
        AluControl::MultiplicationUnsigned => x.wrapping_mul(y),
        AluControl::DivisionSigned => if y == 0 {
            0
        } else {
            divide_signed(x, y)
        },
        AluControl::DivisionUnsigned => if y == 0 {
            0
        } else {
            x / y
        },
    }
}

/// Runs the ALU: both operands are taken at the given width, the operation
/// is applied, and the result is taken at the width again.
pub fn alu_operation(control: AluControl, width: RegWidth, input1: u64, input2: u64) -> (r: u64)
    ensures
        r == alu_result(control, width, input1, input2),
{
    let x = operand_exec(control, width, input1);
    let y = operand_exec(control, width, input2);
    let result = operate(control, x, y);
    at_width_exec(width, result)
}

proof fn lemma_wrap64_low32(v: int)
    ensures
        (wrap64(v) as int) % 0x1_0000_0000int == v % 0x1_0000_0000int,
{
    lemma_mod_mod(v, 0x1_0000_0000int, 0x1_0000_0000int);
}

proof fn lemma_sign_extend32_low32(u: u64)
    ensures
        (sign_extend32(u) as int) % 0x1_0000_0000int == (u as int) % 0x1_0000_0000int,
        signed64(sign_extend32(u)) == signed_low32(u),
{
    lemma_wrap64_low32(signed_low32(u));
    let w = u % 0x1_0000_0000u64;
    if w >= 0x8000_0000 {
        lemma_mod_multiples_vanish(-1, w - 0x1_0000_0000int, 0x1_0000_0000int);
        lemma_mod_multiples_vanish(-1, w - 0x1_0000_0000int + 0x1_0000_0000_0000_0000int, 0x1_0000_0000_0000_0000int);
    }
}

/// A word result depends only on the low 32 bits of what it is made from.
proof fn lemma_word_result(u: u64, v: int)
    requires
        (u as int) % 0x1_0000_0000int == v % 0x1_0000_0000int,
    ensures
        sign_extend32(u) == sign_extend32(wrap64(v)),
{
    lemma_wrap64_low32(v);
}

/// Additions and subtractions wrap: a doubleword operation keeps the low
/// 64 bits of the exact result, and a word operation keeps the low 32 bits
/// of it, sign-extended to 64 bits.
pub proof fn lemma_add_sub_wrap(a: u64, b: u64)
    ensures
        alu_result(AluControl::Addition, RegWidth::DoubleWord, a, b) == wrap64(a + b),
        alu_result(AluControl::Subtraction, RegWidth::DoubleWord, a, b) == wrap64(a - b),
        alu_result(AluControl::Addition, RegWidth::Word, a, b) == sign_extend32(wrap64(a + b)),
        alu_result(AluControl::Subtraction, RegWidth::Word, a, b) == sign_extend32(wrap64(a - b)),
{
    let m = 0x1_0000_0000int;
    let x = sign_extend32(a);
    let y = sign_extend32(b);
    lemma_sign_extend32_low32(a);
    lemma_sign_extend32_low32(b);
    lemma_wrap64_low32(x + y);
    lemma_wrap64_low32(x - y);
    lemma_add_mod_noop(x as int, y as int, m);
    lemma_add_mod_noop(a as int, b as int, m);
    lemma_sub_mod_noop(x as int, y as int, m);
    lemma_sub_mod_noop(a as int, b as int, m);
    lemma_word_result(wrap64(x + y), a + b);
    lemma_word_result(wrap64(x - y), a - b);
}

/// A multiplication keeps only the low bits of the exact product: the low
/// 64 bits for doubleword operations, whether the operands are read as
/// signed or unsigned, and the low 32 bits, sign-extended, for word
/// operations.
pub proof fn lemma_multiply_truncates(a: u64, b: u64)
    ensures
        alu_result(AluControl::MultiplicationSigned, RegWidth::DoubleWord, a, b) == wrap64(
            signed64(a) * signed64(b),
        ),
        alu_result(AluControl::MultiplicationSigned, RegWidth::DoubleWord, a, b) == wrap64(a * b),
        alu_result(AluControl::MultiplicationUnsigned, RegWidth::DoubleWord, a, b) == wrap64(a * b),
        alu_result(AluControl::MultiplicationSigned, RegWidth::Word, a, b) == sign_extend32(
            wrap64(signed_low32(a) * signed_low32(b)),
        ),
        alu_result(AluControl::MultiplicationSigned, RegWidth::Word, a, b) == sign_extend32(
            wrap64(a * b),
        ),
        alu_result(AluControl::MultiplicationUnsigned, RegWidth::Word, a, b) == sign_extend32(
            wrap64(a * b),
        ),
{
    let m = 0x1_0000_0000int;
    lemma_signed_product_low_bits(a, b);
    let x = sign_extend32(a);
    let y = sign_extend32(b);
    lemma_sign_extend32_low32(a);
    lemma_sign_extend32_low32(b);
    lemma_signed_product_low_bits(x, y);
    lemma_wrap64_low32(x * y);
    lemma_mul_mod_noop_general(x as int, y as int, m);
    lemma_mul_mod_noop_general(a as int, b as int, m);
    lemma_word_result(wrap64(x * y), a * b);
}

/// A word operation sees only the low 32 bits of its operands.
pub proof fn lemma_word_operands(control: AluControl, a: u64, b: u64)
    ensures
        alu_result(control, RegWidth::Word, a % 0x1_0000_0000, b % 0x1_0000_0000) == alu_result(
            control,
            RegWidth::Word,
            a,
            b,
        ),
{
    assert((a % 0x1_0000_0000) % 0x1_0000_0000 == a % 0x1_0000_0000);
    assert((b % 0x1_0000_0000) % 0x1_0000_0000 == b % 0x1_0000_0000);
}

/// Taking a value at its width a second time changes nothing.
pub proof fn lemma_at_width_idempotent(width: RegWidth, x: u64)
    ensures
        at_width(width, at_width(width, x)) == at_width(width, x),
{
    lemma_sign_extend32_low32(x);
}

/// A division by zero yields 0, signed or unsigned, at either width; the
/// divisor is the second operand as the ALU sees it: all 64 bits at
/// doubleword width, the low 32 bits at word width.
pub proof fn lemma_divide_by_zero(width: RegWidth, a: u64, b: u64)
    requires
        width == RegWidth::DoubleWord ==> b == 0,
        width == RegWidth::Word ==> b % 0x1_0000_0000 == 0,
    ensures
        alu_result(AluControl::DivisionSigned, width, a, b) == 0,
        alu_result(AluControl::DivisionUnsigned, width, a, b) == 0,
{
    assert(sign_extend32(0) == 0);
    lemma_sign_extend32_low32(b);
}

/// An unsigned division at word width divides the low 32 bits of the
/// operands, read as unsigned, and sign-extends the quotient.
pub proof fn lemma_word_unsigned_division(a: u64, b: u64)
    ensures
        alu_result(AluControl::DivisionUnsigned, RegWidth::Word, a, b) == sign_extend32(
            if b % 0x1_0000_0000 == 0 {
                0
            } else {
                (a % 0x1_0000_0000) / (b % 0x1_0000_0000)
            },
        ),
{
}

} // verus!
