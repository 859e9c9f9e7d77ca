//! What the adder computes, as arithmetic: sums and differences of the
//! numbers that bytes and words stand for, in binary and in decimal.

use super::alu::{decimal_carry, decimal_digit, nibble, sum16, sum8, unit};
use crate::word::{signed16, signed8};
use vstd::prelude::*;

verus! {

/// Both digits of the byte are decimal digits.
pub open spec fn is_bcd8(a: u8) -> bool {
    a % 16 <= 9 && a / 16 <= 9
}

/// The number that a byte of two decimal digits stands for.
pub open spec fn bcd8(a: u8) -> int {
    10 * (a / 16) + a % 16
}

/// All four digits of the word are decimal digits.
pub open spec fn is_bcd16(a: u16) -> bool {
    a % 16 <= 9 && (a / 16) % 16 <= 9 && (a / 256) % 16 <= 9 && a / 4096 <= 9
}

/// The number that a word of four decimal digits stands for.
pub open spec fn bcd16(a: u16) -> int {
    1000 * (a / 4096) + 100 * ((a / 256) % 16) + 10 * ((a / 16) % 16) + a % 16
}

/// One digit position of a decimal subtraction: the digit left is the
/// difference modulo 10, and the position carries iff it does not borrow.
proof fn lemma_subtract_digit(x: int, y: int, carry: bool)
    requires
        0 <= x <= 9,
        0 <= y <= 9,
    ensures
        decimal_carry(x + (15 - y) + unit(carry), true) <==> x - y - 1 + unit(carry) >= 0,
        decimal_digit(x + (15 - y) + unit(carry), true) == if x - y - 1 + unit(carry) >= 0 {
            x - y - 1 + unit(carry)
        } else {
            x - y + 9 + unit(carry)
        },
{
}

/// One digit position of a decimal addition: the digit left is the sum
/// modulo 10, and the position carries iff the sum is above 9.
proof fn lemma_add_digit(x: int, y: int, carry: bool)
    requires
        0 <= x <= 9,
        0 <= y <= 9,
    ensures
        decimal_carry(x + y + unit(carry), false) <==> x + y + unit(carry) > 9,
        decimal_digit(x + y + unit(carry), false) == if x + y + unit(carry) > 9 {
            x + y + unit(carry) - 10
        } else {
            x + y + unit(carry)
        },
{
}

/// The digits of the one's complement of a byte are the complements to 15
/// of its digits.
proof fn lemma_complement_digits(b: u8)
    ensures
        nibble((0xFF - b) as int, 0) == 15 - b % 16,
        nibble((0xFF - b) as int, 1) == 15 - b / 16,
{
}

/// Decimal subtraction on bytes of decimal digits is subtraction of the
/// numbers they stand for, modulo 100; Carry comes out clear iff it borrows.
#[verifier::rlimit(50)]
pub proof fn lemma_decimal_subtract8(a: u8, b: u8, carry: bool)
    requires
        is_bcd8(a),
        is_bcd8(b),
    ensures
        is_bcd8(sum8(a, (0xFF - b) as u8, carry, true, true).value),
        bcd8(sum8(a, (0xFF - b) as u8, carry, true, true).value) == (bcd8(a) - bcd8(b) - 1 + unit(
            carry,
        )) % 100,
        sum8(a, (0xFF - b) as u8, carry, true, true).carry <==> bcd8(a) - bcd8(b) - 1 + unit(carry)
            >= 0,
{
    let v = (0xFF - b) as u8;
    let a0: int = (a % 16) as int;
    let a1: int = (a / 16) as int;
    let b0: int = (b % 16) as int;
    let b1: int = (b / 16) as int;
    lemma_complement_digits(b);
    assert(nibble(a as int, 0) == a0 && nibble(a as int, 1) == a1);
    lemma_subtract_digit(a0, b0, carry);
    let t0 = a0 + (15 - b0) + unit(carry);
    let c0 = decimal_carry(t0, true);
    let d0 = decimal_digit(t0, true);
    lemma_subtract_digit(a1, b1, c0);
    let t1 = a1 + (15 - b1) + unit(c0);
    let c1 = decimal_carry(t1, true);
    let d1 = decimal_digit(t1, true);
    let r = sum8(a, v, carry, true, true);
    assert(r.carry == c1);
    assert(0 <= d0 <= 9 && 0 <= d1 <= 9);
    assert(r.value == 16 * d1 + d0);
    assert(r.value % 16 == d0 && r.value / 16 == d1);
    let n = 10 * a1 + a0 - (10 * b1 + b0) - 1 + unit(carry);
    assert(d0 == a0 - b0 - 1 + unit(carry) + 10 * (1 - unit(c0)));
    assert(d1 == a1 - b1 - 1 + unit(c0) + 10 * (1 - unit(c1)));
    assert(10 * d1 + d0 == n + 100 * (1 - unit(c1)));
    assert(c1 <==> n >= 0);
}

/// Decimal addition on bytes of decimal digits is addition of the numbers
/// they stand for, modulo 100; Carry comes out set iff the sum needs a
/// third digit.
#[verifier::rlimit(50)]
pub proof fn lemma_decimal_add8(a: u8, b: u8, carry: bool)
    requires
        is_bcd8(a),
        is_bcd8(b),
    ensures
        is_bcd8(sum8(a, b, carry, true, false).value),
        bcd8(sum8(a, b, carry, true, false).value) == (bcd8(a) + bcd8(b) + unit(carry)) % 100,
        sum8(a, b, carry, true, false).carry <==> bcd8(a) + bcd8(b) + unit(carry) >= 100,
{
    let a0: int = (a % 16) as int;
    let a1: int = (a / 16) as int;
    let b0: int = (b % 16) as int;
    let b1: int = (b / 16) as int;
    assert(nibble(b as int, 0) == b0 && nibble(b as int, 1) == b1);
    assert(nibble(a as int, 0) == a0 && nibble(a as int, 1) == a1);
    lemma_add_digit(a0, b0, carry);
    let t0 = a0 + b0 + unit(carry);
    let c0 = decimal_carry(t0, false);
    let d0 = decimal_digit(t0, false);
    lemma_add_digit(a1, b1, c0);
    let t1 = a1 + b1 + unit(c0);
    let c1 = decimal_carry(t1, false);
    let d1 = decimal_digit(t1, false);
    let r = sum8(a, b, carry, true, false);
    assert(r.carry == c1);
    assert(0 <= d0 <= 9 && 0 <= d1 <= 9);
    assert(r.value == 16 * d1 + d0);
    assert(r.value % 16 == d0 && r.value / 16 == d1);
    let n = 10 * a1 + a0 + (10 * b1 + b0) + unit(carry);
    assert(d0 == a0 + b0 + unit(carry) - 10 * unit(c0));
    assert(d1 == a1 + b1 + unit(c0) - 10 * unit(c1));
    assert(10 * d1 + d0 == n - 100 * unit(c1));
    assert(c1 <==> n >= 100);
}

/// A word is the sum of its four digits, each weighted by its position.
proof fn lemma_digits_of_word(a: u16)
    ensures
        a == 4096 * nibble(a as int, 3) + 256 * nibble(a as int, 2) + 16 * nibble(a as int, 1)
            + nibble(a as int, 0),
        forall|k: int| 0 <= k <= 3 ==> 0 <= #[trigger] nibble(a as int, k) <= 15,
        nibble(a as int, 3) == a / 4096,
{
}

/// The digits of a sum of four weighted digits are those digits.
proof fn lemma_word_of_digits(d3: int, d2: int, d1: int, d0: int)
    requires
        0 <= d3 <= 15,
        0 <= d2 <= 15,
        0 <= d1 <= 15,
        0 <= d0 <= 15,
    ensures
        nibble(4096 * d3 + 256 * d2 + 16 * d1 + d0, 0) == d0,
        nibble(4096 * d3 + 256 * d2 + 16 * d1 + d0, 1) == d1,
        nibble(4096 * d3 + 256 * d2 + 16 * d1 + d0, 2) == d2,
        nibble(4096 * d3 + 256 * d2 + 16 * d1 + d0, 3) == d3,
        0 <= 4096 * d3 + 256 * d2 + 16 * d1 + d0 <= 0xFFFF,
{
    let w = 4096 * d3 + 256 * d2 + 16 * d1 + d0;
    assert(w % 16 == d0) by {
        assert(w == 16 * (256 * d3 + 16 * d2 + d1) + d0);
    }
    assert(w / 16 == 256 * d3 + 16 * d2 + d1) by {
        assert(w == 16 * (256 * d3 + 16 * d2 + d1) + d0);
    }
    assert(w / 256 == 16 * d3 + d2) by {
        assert(w == 256 * (16 * d3 + d2) + (16 * d1 + d0));
    }
    assert(w / 4096 == d3) by {
        assert(w == 4096 * d3 + (256 * d2 + 16 * d1 + d0));
    }
    assert((256 * d3 + 16 * d2 + d1) % 16 == d1) by {
        assert(256 * d3 + 16 * d2 + d1 == 16 * (16 * d3 + d2) + d1);
    }
    assert((16 * d3 + d2) % 16 == d2);
    assert(d3 % 16 == d3);
}

/// The digit that the adder sees for a digit `y` of the operand: `y`
/// itself when adding, its complement to 15 when subtracting.
pub open spec fn adder_digit(y: int, subtract: bool) -> int {
    if subtract {
        15 - y
    } else {
        y
    }
}

/// What a decimal operation on two numbers and a carry should come to,
/// before reduction: the sum, or the difference less a pending borrow.
pub open spec fn decimal_target(x: int, y: int, carry: bool, subtract: bool) -> int {
    if subtract {
        x - y - 1 + unit(carry)
    } else {
        x + y + unit(carry)
    }
}

/// One digit position in either direction: the digit left and the carry
/// handed on, told from the target of the position.
proof fn lemma_decimal_position(x: int, y: int, carry: bool, subtract: bool)
    requires
        0 <= x <= 9,
        0 <= y <= 9,
    ensures
        ({
            let t = x + adder_digit(y, subtract) + unit(carry);
            let n = decimal_target(x, y, carry, subtract);
            &&& 0 <= decimal_digit(t, subtract) <= 9
            &&& subtract ==> (decimal_carry(t, subtract) <==> n >= 0)
            &&& subtract ==> decimal_digit(t, subtract) == n + 10 * (1 - unit(
                decimal_carry(t, subtract),
            ))
            &&& !subtract ==> (decimal_carry(t, subtract) <==> n >= 10)
            &&& !subtract ==> decimal_digit(t, subtract) == n - 10 * unit(
                decimal_carry(t, subtract),
            )
        }),
{
    if subtract {
        lemma_subtract_digit(x, y, carry);
    } else {
        lemma_add_digit(x, y, carry);
    }
}

/// Four positions that each hand a carry `k` to the next: their digits,
/// weighted by ten, come to the whole difference or sum, up to the last carry.
proof fn lemma_chain_total(
    n0: int,
    n1: int,
    n2: int,
    n3: int,
    k0: int,
    k1: int,
    k2: int,
    k3: int,
    d0: int,
    d1: int,
    d2: int,
    d3: int,
    subtract: bool,
)
    requires
        subtract ==> d0 == n0 + 10 * (1 - k0) && d1 == n1 + k0 + 10 * (1 - k1) && d2 == n2 + k1
            + 10 * (1 - k2) && d3 == n3 + k2 + 10 * (1 - k3),
        !subtract ==> d0 == n0 - 10 * k0 && d1 == n1 + k0 - 10 * k1 && d2 == n2 + k1 - 10 * k2
            && d3 == n3 + k2 - 10 * k3,
    ensures
        subtract ==> 1000 * d3 + 100 * d2 + 10 * d1 + d0 == 1000 * n3 + 100 * n2 + 10 * n1 + n0
            + 1110 + 10000 * (1 - k3),
        !subtract ==> 1000 * d3 + 100 * d2 + 10 * d1 + d0 == 1000 * n3 + 100 * n2 + 10 * n1 + n0
            - 10000 * k3,
{
}

/// A number in `0..10000` that differs from `n` by a multiple of 10000
/// is `n` modulo 10000.
proof fn lemma_reduced(total: int, n: int, q: int)
    requires
        0 <= total < 10000,
        total == n + 10000 * q,
    ensures
        n % 10000 == total,
{
    assert(n == 10000 * (-q) + total);
    vstd::arithmetic::div_mod::lemma_fundamental_div_mod_converse(n, 10000, -q, total);
}

/// Four digit positions in a row come to the target of the whole numbers,
/// modulo 10000.
#[verifier::rlimit(100)]
proof fn lemma_decimal_chain(
    x0: int,
    x1: int,
    x2: int,
    x3: int,
    y0: int,
    y1: int,
    y2: int,
    y3: int,
    carry: bool,
    subtract: bool,
)
    requires
        0 <= x0 <= 9 && 0 <= x1 <= 9 && 0 <= x2 <= 9 && 0 <= x3 <= 9,
        0 <= y0 <= 9 && 0 <= y1 <= 9 && 0 <= y2 <= 9 && 0 <= y3 <= 9,
    ensures
        ({
            let t0 = x0 + adder_digit(y0, subtract) + unit(carry);
            let t1 = x1 + adder_digit(y1, subtract) + unit(decimal_carry(t0, subtract));
            let t2 = x2 + adder_digit(y2, subtract) + unit(decimal_carry(t1, subtract));
            let t3 = x3 + adder_digit(y3, subtract) + unit(decimal_carry(t2, subtract));
            let d0 = decimal_digit(t0, subtract);
            let d1 = decimal_digit(t1, subtract);
            let d2 = decimal_digit(t2, subtract);
            let d3 = decimal_digit(t3, subtract);
            let n = decimal_target(
                1000 * x3 + 100 * x2 + 10 * x1 + x0,
                1000 * y3 + 100 * y2 + 10 * y1 + y0,
                carry,
                subtract,
            );
            &&& 0 <= d0 <= 9 && 0 <= d1 <= 9 && 0 <= d2 <= 9 && 0 <= d3 <= 9
            &&& 1000 * d3 + 100 * d2 + 10 * d1 + d0 == n % 10000
            &&& decimal_carry(t3, subtract) <==> if subtract {
                n >= 0
            } else {
                n >= 10000
            }
        }),
{
    let t0 = x0 + adder_digit(y0, subtract) + unit(carry);
    let c0 = decimal_carry(t0, subtract);
    let t1 = x1 + adder_digit(y1, subtract) + unit(c0);
    let c1 = decimal_carry(t1, subtract);
    let t2 = x2 + adder_digit(y2, subtract) + unit(c1);
    let c2 = decimal_carry(t2, subtract);
    let t3 = x3 + adder_digit(y3, subtract) + unit(c2);
    let c3 = decimal_carry(t3, subtract);
    let d0 = decimal_digit(t0, subtract);
    let d1 = decimal_digit(t1, subtract);
    let d2 = decimal_digit(t2, subtract);
    let d3 = decimal_digit(t3, subtract);
    lemma_decimal_position(x0, y0, carry, subtract);
    lemma_decimal_position(x1, y1, c0, subtract);
    lemma_decimal_position(x2, y2, c1, subtract);
    lemma_decimal_position(x3, y3, c2, subtract);
    let n = decimal_target(
        1000 * x3 + 100 * x2 + 10 * x1 + x0,
        1000 * y3 + 100 * y2 + 10 * y1 + y0,
        carry,
        subtract,
    );
    let total = 1000 * d3 + 100 * d2 + 10 * d1 + d0;
    if subtract {
        lemma_chain_total(
            x0 - y0 - 1 + unit(carry),
            x1 - y1 - 1,
            x2 - y2 - 1,
            x3 - y3 - 1,
            unit(c0),
            unit(c1),
            unit(c2),
            unit(c3),
            d0,
            d1,
            d2,
            d3,
            true,
        );
        assert(total == n + 10000 * (1 - unit(c3)));
        lemma_reduced(total, n, 1 - unit(c3));
    } else {
        lemma_chain_total(
            x0 + y0 + unit(carry),
            x1 + y1,
            x2 + y2,
            x3 + y3,
            unit(c0),
            unit(c1),
            unit(c2),
            unit(c3),
            d0,
            d1,
            d2,
            d3,
            false,
        );
        assert(total == n - 10000 * unit(c3));
        lemma_reduced(total, n, -unit(c3));
    }
}

/// The adder in decimal mode, on words made of decimal digits, comes to
/// the target of the numbers they stand for.
#[verifier::rlimit(100)]
proof fn lemma_decimal_sum16(a: u16, b: u16, carry: bool, subtract: bool)
    requires
        is_bcd16(a),
        is_bcd16(b),
    ensures
        ({
            let v = if subtract {
                (0xFFFF - b) as u16
            } else {
                b
            };
            let r = sum16(a, v, carry, true, subtract);
            let n = decimal_target(bcd16(a), bcd16(b), carry, subtract);
            &&& is_bcd16(r.value)
            &&& bcd16(r.value) == n % 10000
            &&& r.carry <==> if subtract {
                n >= 0
            } else {
                n >= 10000
            }
        }),
{
    let v = if subtract {
        (0xFFFF - b) as u16
    } else {
        b
    };
    lemma_digits_of_word(a);
    lemma_digits_of_word(b);
    let a0 = nibble(a as int, 0);
    let a1 = nibble(a as int, 1);
    let a2 = nibble(a as int, 2);
    let a3 = nibble(a as int, 3);
    let b0 = nibble(b as int, 0);
    let b1 = nibble(b as int, 1);
    let b2 = nibble(b as int, 2);
    let b3 = nibble(b as int, 3);
    assert(nibble(v as int, 0) == adder_digit(b0, subtract) && nibble(v as int, 1) == adder_digit(
        b1,
        subtract,
    ) && nibble(v as int, 2) == adder_digit(b2, subtract) && nibble(v as int, 3) == adder_digit(
        b3,
        subtract,
    )) by {
        if subtract {
            lemma_word_of_digits(15 - b3, 15 - b2, 15 - b1, 15 - b0);
            assert(v == 4096 * (15 - b3) + 256 * (15 - b2) + 16 * (15 - b1) + (15 - b0));
        }
    }
    lemma_decimal_chain(a0, a1, a2, a3, b0, b1, b2, b3, carry, subtract);
    let t0 = a0 + adder_digit(b0, subtract) + unit(carry);
    let t1 = a1 + adder_digit(b1, subtract) + unit(decimal_carry(t0, subtract));
    let t2 = a2 + adder_digit(b2, subtract) + unit(decimal_carry(t1, subtract));
    let t3 = a3 + adder_digit(b3, subtract) + unit(decimal_carry(t2, subtract));
    let d0 = decimal_digit(t0, subtract);
    let d1 = decimal_digit(t1, subtract);
    let d2 = decimal_digit(t2, subtract);
    let d3 = decimal_digit(t3, subtract);
    let r = sum16(a, v, carry, true, subtract);
    lemma_word_of_digits(d3, d2, d1, d0);
    assert(r.value == 4096 * d3 + 256 * d2 + 16 * d1 + d0);
    assert(r.carry == decimal_carry(t3, subtract));
    lemma_digits_of_word(r.value);
    assert(bcd16(r.value) == 1000 * d3 + 100 * d2 + 10 * d1 + d0);
    assert(bcd16(a) == 1000 * a3 + 100 * a2 + 10 * a1 + a0);
    assert(bcd16(b) == 1000 * b3 + 100 * b2 + 10 * b1 + b0);
}

/// Decimal subtraction on words of decimal digits is subtraction of the
/// numbers they stand for, modulo 10000; Carry comes out clear iff it
/// borrows.
pub proof fn lemma_decimal_subtract16(a: u16, b: u16, carry: bool)
    requires
        is_bcd16(a),
        is_bcd16(b),
    ensures
        is_bcd16(sum16(a, (0xFFFF - b) as u16, carry, true, true).value),
        bcd16(sum16(a, (0xFFFF - b) as u16, carry, true, true).value) == (bcd16(a) - bcd16(b) - 1
            + unit(carry)) % 10000,
        sum16(a, (0xFFFF - b) as u16, carry, true, true).carry <==> bcd16(a) - bcd16(b) - 1 + unit(
            carry,
        ) >= 0,
{
    lemma_decimal_sum16(a, b, carry, true);
}

/// Decimal addition on words of decimal digits is addition of the numbers
/// they stand for, modulo 10000; Carry comes out set iff the sum needs a
/// fifth digit.
pub proof fn lemma_decimal_add16(a: u16, b: u16, carry: bool)
    requires
        is_bcd16(a),
        is_bcd16(b),
    ensures
        is_bcd16(sum16(a, b, carry, true, false).value),
        bcd16(sum16(a, b, carry, true, false).value) == (bcd16(a) + bcd16(b) + unit(carry))
            % 10000,
        sum16(a, b, carry, true, false).carry <==> bcd16(a) + bcd16(b) + unit(carry) >= 10000,
{
    lemma_decimal_sum16(a, b, carry, false);
}

/// The sign bit of a byte sum, read off its top digit position: `t1` is
/// the total of the top position and `low` the digit below it.
proof fn lemma_top_digit_sign(t1: int, low: int)
    requires
        0 <= t1 <= 31,
        0 <= low <= 15,
    ensures
        ((16 * t1 + low) % 0x100 >= 0x80) == (t1 % 16 >= 8),
{
    if t1 >= 16 {
        assert((16 * t1 + low) % 0x100 == 16 * t1 + low - 0x100);
        assert(t1 % 16 == t1 - 16);
    } else {
        assert((16 * t1 + low) % 0x100 == 16 * t1 + low);
        assert(t1 % 16 == t1);
    }
}

/// Subtracting, the decimal correction does not touch Overflow: it is the
/// two's-complement overflow of the binary sum.
#[verifier::rlimit(50)]
pub proof fn lemma_subtract_overflow_is_binary(a: u8, v: u8, carry: bool)
    ensures
        sum8(a, v, carry, true, true).overflow == sum8(a, v, carry, false, true).overflow,
{
    let a0: int = (a % 16) as int;
    let a1: int = (a / 16) as int;
    let v0: int = (v % 16) as int;
    let v1: int = (v / 16) as int;
    assert(nibble(v as int, 0) == v0 && nibble(v as int, 1) == v1);
    assert(nibble(a as int, 0) == a0 && nibble(a as int, 1) == a1);
    assert(a == 16 * a1 + a0 && v == 16 * v1 + v0);
    let t0 = a0 + v0 + unit(carry);
    let k0 = unit(t0 > 15);
    let t1 = a1 + v1 + k0;
    let low = t0 - 16 * k0;
    let total = a + v + unit(carry);
    assert(total == 16 * t1 + low);
    lemma_top_digit_sign(t1, low);
    assert(decimal_carry(t0, true) == (t0 > 15));
}

/// Binary subtraction is subtraction modulo 256; Carry comes out clear iff
/// it borrows.
pub proof fn lemma_binary_subtract8(a: u8, b: u8, carry: bool)
    ensures
        sum8(a, (0xFF - b) as u8, carry, false, true).value == (a - b - 1 + unit(carry)) % 0x100,
        sum8(a, (0xFF - b) as u8, carry, false, true).carry <==> a - b - 1 + unit(carry) >= 0,
{
}

/// Binary addition is addition modulo 256; Carry comes out set iff the
/// sum needs a ninth bit.
pub proof fn lemma_binary_add8(a: u8, b: u8, carry: bool)
    ensures
        sum8(a, b, carry, false, false).value == (a + b + unit(carry)) % 0x100,
        sum8(a, b, carry, false, false).carry <==> a + b + unit(carry) >= 0x100,
{
}

/// Binary addition and subtraction on words, modulo 65536.
pub proof fn lemma_binary_sum16(a: u16, b: u16, carry: bool)
    ensures
        sum16(a, b, carry, false, false).value == (a + b + unit(carry)) % 0x10000,
        sum16(a, b, carry, false, false).carry <==> a + b + unit(carry) >= 0x10000,
        sum16(a, (0xFFFF - b) as u16, carry, false, true).value == (a - b - 1 + unit(carry))
            % 0x10000,
        sum16(a, (0xFFFF - b) as u16, carry, false, true).carry <==> a - b - 1 + unit(carry) >= 0,
{
}

/// In binary mode Overflow is set iff the sum of the adder's operands,
/// read as two's-complement numbers, does not fit in a signed byte.
pub proof fn lemma_binary_overflow8(a: u8, v: u8, carry: bool, subtract: bool)
    ensures
        sum8(a, v, carry, false, subtract).overflow <==> !(-128 <= signed8(a) + signed8(v) + unit(
            carry,
        ) <= 127),
{
}

/// The same on words.
pub proof fn lemma_binary_overflow16(a: u16, v: u16, carry: bool, subtract: bool)
    ensures
        sum16(a, v, carry, false, subtract).overflow <==> !(-32768 <= signed16(a) + signed16(v)
            + unit(carry) <= 32767),
{
}

/// Subtracting in binary mode, Overflow is set iff the difference of the
/// numbers, less a pending borrow, does not fit in a signed byte.
pub proof fn lemma_binary_subtract_overflow8(a: u8, b: u8, carry: bool)
    ensures
        sum8(a, (0xFF - b) as u8, carry, false, true).overflow <==> !(-128 <= signed8(a) - signed8(
            b,
        ) - 1 + unit(carry) <= 127),
{
}

} // verus!
