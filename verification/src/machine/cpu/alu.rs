//! Arithmetic, logic, shifts, comparisons and the increments.

use super::addressing::AddressingMode;
use super::status::{CARRY_FLAG, DEC_FLAG, OVERFLOW_FLAG};
use super::{Machine, W65C816};
use crate::fault::Fault;
use crate::word::{low, low_byte, replace_low, with_low};
use vstd::prelude::*;

verus! {

/// What the adder hands back for byte operands.
#[derive(Clone, Copy, Debug, PartialEq, Eq, Structural)]
pub struct Sum8 {
    pub value: u8,
    pub carry: bool,
    pub overflow: bool,
}

/// What the adder hands back for word operands.
#[derive(Clone, Copy, Debug, PartialEq, Eq, Structural)]
pub struct Sum16 {
    pub value: u16,
    pub carry: bool,
    pub overflow: bool,
}

/// A carry as a number.
pub open spec fn unit(carry: bool) -> int {
    if carry {
        1
    } else {
        0
    }
}

/// The `k`-th hexadecimal digit of `w`, the least significant being digit
/// 0; every `k` above 3 stands for 3.
pub open spec fn nibble(w: int, k: int) -> int {
    if k == 0 {
        w % 16
    } else if k == 1 {
        (w / 16) % 16
    } else if k == 2 {
        (w / 256) % 16
    } else {
        (w / 4096) % 16
    }
}

/// Whether a digit position with total `t` carries into the next one in
/// decimal mode. Adding, a total above 9 is first raised by 6.
pub open spec fn decimal_carry(t: int, subtract: bool) -> bool {
    if subtract {
        t > 15
    } else if t > 9 {
        t + 6 > 15
    } else {
        false
    }
}

/// The digit that a position with total `t` leaves in decimal mode.
/// Subtracting, a position that does not carry has borrowed and gives up 6;
/// adding, a total above 9 is raised by 6.
pub open spec fn decimal_digit(t: int, subtract: bool) -> int {
    if subtract {
        if t < 16 {
            (t - 6) % 16
        } else {
            t % 16
        }
    } else if t > 9 {
        (t + 6) % 16
    } else {
        t
    }
}

/// Two's-complement overflow: both operands have one sign and the result
/// the other.
pub open spec fn sign_overflow(a_neg: bool, v_neg: bool, r_neg: bool) -> bool {
    a_neg == v_neg && a_neg != r_neg
}

/// `a + v + carry` on bytes. In decimal mode the two digit positions are
/// corrected in turn, each handing its carry to the next. Overflow is
/// taken from the sign before the top digit is corrected. Subtraction is
/// the addition of the one's complement with the subtractive correction.
pub open spec fn sum8(a: u8, v: u8, carry: bool, decimal: bool, subtract: bool) -> Sum8 {
    if decimal {
        let t0 = nibble(a as int, 0) + nibble(v as int, 0) + unit(carry);
        let t1 = nibble(a as int, 1) + nibble(v as int, 1) + unit(decimal_carry(t0, subtract));
        Sum8 {
            value: (16 * decimal_digit(t1, subtract) + decimal_digit(t0, subtract)) as u8,
            carry: decimal_carry(t1, subtract),
            overflow: sign_overflow(a >= 0x80, v >= 0x80, t1 % 16 >= 8),
        }
    } else {
        let total = a + v + unit(carry);
        Sum8 {
            value: (total % 0x100) as u8,
            carry: total > 0xFF,
            overflow: sign_overflow(a >= 0x80, v >= 0x80, total % 0x100 >= 0x80),
        }
    }
}

/// `a + v + carry` on words; in decimal mode over four digit positions.
pub open spec fn sum16(a: u16, v: u16, carry: bool, decimal: bool, subtract: bool) -> Sum16 {
    if decimal {
        let t0 = nibble(a as int, 0) + nibble(v as int, 0) + unit(carry);
        let t1 = nibble(a as int, 1) + nibble(v as int, 1) + unit(decimal_carry(t0, subtract));
        let t2 = nibble(a as int, 2) + nibble(v as int, 2) + unit(decimal_carry(t1, subtract));
        let t3 = nibble(a as int, 3) + nibble(v as int, 3) + unit(decimal_carry(t2, subtract));
        Sum16 {
            value: (4096 * decimal_digit(t3, subtract) + 256 * decimal_digit(t2, subtract) + 16
                * decimal_digit(t1, subtract) + decimal_digit(t0, subtract)) as u16,
            carry: decimal_carry(t3, subtract),
            overflow: sign_overflow(a >= 0x8000, v >= 0x8000, t3 % 16 >= 8),
        }
    } else {
        let total = a + v + unit(carry);
        Sum16 {
            value: (total % 0x10000) as u16,
            carry: total > 0xFFFF,
            overflow: sign_overflow(a >= 0x8000, v >= 0x8000, total % 0x10000 >= 0x8000),
        }
    }
}

impl Machine {
    /// The accumulator's low byte and the flags N, V, Z, C take an adder result.
    pub open spec fn take_sum8(self, sum: Sum8) -> Machine {
        Machine {
            a: with_low(self.a, sum.value),
            p: self.p.with(OVERFLOW_FLAG, sum.overflow).with(CARRY_FLAG, sum.carry).nz8(sum.value),
            ..self
        }
    }

    /// The accumulator and the flags N, V, Z, C take an adder result.
    pub open spec fn take_sum16(self, sum: Sum16) -> Machine {
        Machine {
            a: sum.value,
            p: self.p.with(OVERFLOW_FLAG, sum.overflow).with(CARRY_FLAG, sum.carry).nz16(
                sum.value,
            ),
            ..self
        }
    }

    /// ADC: the operand and Carry are added to the accumulator.
    pub open spec fn adc(self, am: AddressingMode) -> (Machine, Result<(), Fault>) {
        if self.small_acc() {
            let (m, r) = self.read8(am);
            match r {
                Err(e) => (m, Err(e)),
                Ok(val) => (
                    m.take_sum8(
                        sum8(
                            low(m.a),
                            val,
                            m.p.has(CARRY_FLAG),
                            m.p.has(DEC_FLAG),
                            false,
                        ),
                    ),
                    Ok(()),
                ),
            }
        } else {
            let (m, r) = self.read16(am);
            match r {
                Err(e) => (m, Err(e)),
                Ok(val) => (
                    m.take_sum16(
                        sum16(m.a, val, m.p.has(CARRY_FLAG), m.p.has(DEC_FLAG), false),
                    ),
                    Ok(()),
                ),
            }
        }
    }

    /// SBC: the operand is subtracted from the accumulator, with Carry clear
    /// standing for a borrow: the complement of the operand is added.
    pub open spec fn sbc(self, am: AddressingMode) -> (Machine, Result<(), Fault>) {
        if self.small_acc() {
            let (m, r) = self.read8(am);
            match r {
                Err(e) => (m, Err(e)),
                Ok(val) => (
                    m.take_sum8(
                        sum8(
                            low(m.a),
                            (0xFF - val) as u8,
                            m.p.has(CARRY_FLAG),
                            m.p.has(DEC_FLAG),
                            true,
                        ),
                    ),
                    Ok(()),
                ),
            }
        } else {
            let (m, r) = self.read16(am);
            match r {
                Err(e) => (m, Err(e)),
                Ok(val) => (
                    m.take_sum16(
                        sum16(m.a, (0xFFFF - val) as u16, m.p.has(CARRY_FLAG), m.p.has(DEC_FLAG), true),
                    ),
                    Ok(()),
                ),
            }
        }
    }

    /// ASL A: the accumulator moves one bit left; the bit that leaves goes
    /// to Carry and a zero comes in.
    pub open spec fn asl_a(self) -> Machine {
        if self.small_acc() {
            Machine { p: self.p.with(CARRY_FLAG, self.a & 0x80 != 0), ..self }.put_a8(
                low(self.a) << 1,
            )
        } else {
            Machine { p: self.p.with(CARRY_FLAG, self.a & 0x8000 != 0), ..self }.put_a16(
                self.a << 1,
            )
        }
    }

    /// LSR A: the accumulator moves one bit right; the bit that leaves goes
    /// to Carry and a zero comes in.
    pub open spec fn lsr_a(self) -> Machine {
        if self.small_acc() {
            Machine { p: self.p.with(CARRY_FLAG, self.a & 0x01 != 0), ..self }.put_a8(
                low(self.a) >> 1,
            )
        } else {
            Machine { p: self.p.with(CARRY_FLAG, self.a & 0x0001 != 0), ..self }.put_a16(
                self.a >> 1,
            )
        }
    }

    /// AND: the accumulator is and-ed with the operand.
    pub open spec fn and(self, am: AddressingMode) -> (Machine, Result<(), Fault>) {
        if self.small_acc() {
            let (m, r) = self.read8(am);
            match r {
                Err(e) => (m, Err(e)),
                Ok(val) => (m.put_a8(low(m.a) & val), Ok(())),
            }
        } else {
            let (m, r) = self.read16(am);
            match r {
                Err(e) => (m, Err(e)),
                Ok(val) => (m.put_a16(m.a & val), Ok(())),
            }
        }
    }

    /// ORA: the accumulator is or-ed with the operand.
    pub open spec fn ora(self, am: AddressingMode) -> (Machine, Result<(), Fault>) {
        if self.small_acc() {
            let (m, r) = self.read8(am);
            match r {
                Err(e) => (m, Err(e)),
                Ok(val) => (m.put_a8(low(m.a) | val), Ok(())),
            }
        } else {
            let (m, r) = self.read16(am);
            match r {
                Err(e) => (m, Err(e)),
                Ok(val) => (m.put_a16(m.a | val), Ok(())),
            }
        }
    }

    /// CMP: the accumulator is compared with the operand; only flags change.
    pub open spec fn cmp(self, am: AddressingMode) -> (Machine, Result<(), Fault>) {
        if self.small_acc() {
            let (m, r) = self.read8(am);
            match r {
                Err(e) => (m, Err(e)),
                Ok(val) => (m.compare8(low(m.a), val), Ok(())),
            }
        } else {
            let (m, r) = self.read16(am);
            match r {
                Err(e) => (m, Err(e)),
                Ok(val) => (m.compare(m.a, val), Ok(())),
            }
        }
    }

    /// CPX: X is compared with the operand; only flags change.
    pub open spec fn cpx(self, am: AddressingMode) -> (Machine, Result<(), Fault>) {
        if self.small_idx() {
            let (m, r) = self.read8(am);
            match r {
                Err(e) => (m, Err(e)),
                Ok(val) => (m.compare8(low(m.x), val), Ok(())),
            }
        } else {
            let (m, r) = self.read16(am);
            match r {
                Err(e) => (m, Err(e)),
                Ok(val) => (m.compare(m.x, val), Ok(())),
            }
        }
    }

    /// CPY: Y is compared with the operand; only flags change.
    pub open spec fn cpy(self, am: AddressingMode) -> (Machine, Result<(), Fault>) {
        if self.small_idx() {
            let (m, r) = self.read8(am);
            match r {
                Err(e) => (m, Err(e)),
                Ok(val) => (m.compare8(low(m.y), val), Ok(())),
            }
        } else {
            let (m, r) = self.read16(am);
            match r {
                Err(e) => (m, Err(e)),
                Ok(val) => (m.compare(m.y, val), Ok(())),
            }
        }
    }

    /// INX: X goes up by one, wrapping at the index width.
    pub open spec fn inx(self) -> Machine {
        if self.small_idx() {
            self.put_x8(low(self.x).wrapping_add(1))
        } else {
            self.put_x16(self.x.wrapping_add(1))
        }
    }

    /// INY: Y goes up by one, wrapping at the index width.
    pub open spec fn iny(self) -> Machine {
        if self.small_idx() {
            self.put_y8(low(self.y).wrapping_add(1))
        } else {
            self.put_y16(self.y.wrapping_add(1))
        }
    }

    /// DEX: X goes down by one, wrapping at the index width.
    pub open spec fn dex(self) -> Machine {
        if self.small_idx() {
            self.put_x8(low(self.x).wrapping_sub(1))
        } else {
            self.put_x16(self.x.wrapping_sub(1))
        }
    }

    /// DEY: Y goes down by one, wrapping at the index width.
    pub open spec fn dey(self) -> Machine {
        if self.small_idx() {
            self.put_y8(low(self.y).wrapping_sub(1))
        } else {
            self.put_y16(self.y.wrapping_sub(1))
        }
    }

    /// INC: the byte or word at the operand's location goes up by one,
    /// wrapping; Zero and Negative record the new value before it is stored.
    pub open spec fn inc(self, am: AddressingMode) -> (Machine, Result<(), Fault>) {
        let (m, r) = self.address(am);
        match r {
            Err(e) => (m, Err(e)),
            Ok(at) => if m.small_acc() {
                let (m1, r1) = m.loadb(at.0, at.1);
                match r1 {
                    Err(e) => (m1, Err(e)),
                    Ok(val) => Machine { p: m1.p.nz8(val.wrapping_add(1)), ..m1 }.storeb(
                        at.0,
                        at.1,
                        val.wrapping_add(1),
                    ),
                }
            } else {
                let (m1, r1) = m.loadw(at.0, at.1);
                match r1 {
                    Err(e) => (m1, Err(e)),
                    Ok(val) => Machine { p: m1.p.nz16(val.wrapping_add(1)), ..m1 }.storew(
                        at.0,
                        at.1,
                        val.wrapping_add(1),
                    ),
                }
            },
        }
    }
}

/// The `k`-th hexadecimal digit of a word; every `k` above 3 stands for 3.
pub fn nibble_of(w: u16, k: u8) -> (n: u16)
    ensures
        n == nibble(w as int, k as int),
        n <= 15,
{
    if k == 0 {
        w % 16
    } else if k == 1 {
        (w / 16) % 16
    } else if k == 2 {
        (w / 256) % 16
    } else {
        (w / 4096) % 16
    }
}

/// Corrects one digit position in decimal mode: the digit it leaves and
/// whether it carries.
pub fn correct_digit(t: u16, subtract: bool) -> (r: (u16, bool))
    ensures
        r.0 == decimal_digit(t as int, subtract),
        r.1 == decimal_carry(t as int, subtract),
        r.0 <= 15,
{
    let wide: u32 = t as u32;
    if subtract {
        if wide < 16 {
            (((wide + 10) % 16) as u16, false)
        } else {
            ((wide % 16) as u16, true)
        }
    } else if wide > 9 {
        (((wide + 6) % 16) as u16, wide + 6 > 15)
    } else {
        (t, false)
    }
}

/// One digit position: the digits of both operands and the carry coming in.
fn digit_total(a: u16, v: u16, k: u8, carry: bool) -> (t: u16)
    ensures
        t == nibble(a as int, k as int) + nibble(v as int, k as int) + unit(carry),
        t <= 31,
{
    let c: u16 = if carry {
        1
    } else {
        0
    };
    nibble_of(a, k) + nibble_of(v, k) + c
}

/// The adder on bytes.
pub fn add8(a: u8, v: u8, carry: bool, decimal: bool, subtract: bool) -> (r: Sum8)
    ensures
        r == sum8(a, v, carry, decimal, subtract),
{
    let a_neg: bool = a >= 0x80;
    let v_neg: bool = v >= 0x80;
    if decimal {
        let t0: u16 = digit_total(a as u16, v as u16, 0, carry);
        let (d0, c0) = correct_digit(t0, subtract);
        let t1: u16 = digit_total(a as u16, v as u16, 1, c0);
        let (d1, c1) = correct_digit(t1, subtract);
        let r_neg: bool = t1 % 16 >= 8;
        Sum8 {
            value: (16 * d1 + d0) as u8,
            carry: c1,
            overflow: a_neg == v_neg && a_neg != r_neg,
        }
    } else {
        let c: u16 = if carry {
            1
        } else {
            0
        };
        let total: u16 = a as u16 + v as u16 + c;
        let r_neg: bool = total % 0x100 >= 0x80;
        Sum8 {
            value: (total % 0x100) as u8,
            carry: total > 0xFF,
            overflow: a_neg == v_neg && a_neg != r_neg,
        }
    }
}

/// The adder on words.
pub fn add16(a: u16, v: u16, carry: bool, decimal: bool, subtract: bool) -> (r: Sum16)
    ensures
        r == sum16(a, v, carry, decimal, subtract),
{
    let a_neg: bool = a >= 0x8000;
    let v_neg: bool = v >= 0x8000;
    if decimal {
        let t0: u16 = digit_total(a, v, 0, carry);
        let (d0, c0) = correct_digit(t0, subtract);
        let t1: u16 = digit_total(a, v, 1, c0);
        let (d1, c1) = correct_digit(t1, subtract);
        let t2: u16 = digit_total(a, v, 2, c1);
        let (d2, c2) = correct_digit(t2, subtract);
        let t3: u16 = digit_total(a, v, 3, c2);
        let (d3, c3) = correct_digit(t3, subtract);
        let r_neg: bool = t3 % 16 >= 8;
        Sum16 {
            value: 4096 * d3 + 256 * d2 + 16 * d1 + d0,
            carry: c3,
            overflow: a_neg == v_neg && a_neg != r_neg,
        }
    } else {
        let c: u32 = if carry {
            1
        } else {
            0
        };
        let total: u32 = a as u32 + v as u32 + c;
        let r_neg: bool = total % 0x10000 >= 0x8000;
        Sum16 {
            value: (total % 0x10000) as u16,
            carry: total > 0xFFFF,
            overflow: a_neg == v_neg && a_neg != r_neg,
        }
    }
}

impl W65C816 {
    /// Puts an adder result into the accumulator's low byte and the flags.
    fn take_sum8(&mut self, sum: Sum8)
        ensures
            final(self)@ == old(self)@.take_sum8(sum),
    {
        self.p.set_overflow(sum.overflow);
        self.p.set_carry(sum.carry);
        let val: u8 = self.p.set_nz_8(sum.value);
        self.a = replace_low(self.a, val);
    }

    /// Puts an adder result into the accumulator and the flags.
    fn take_sum16(&mut self, sum: Sum16)
        ensures
            final(self)@ == old(self)@.take_sum16(sum),
    {
        self.p.set_overflow(sum.overflow);
        self.p.set_carry(sum.carry);
        self.a = self.p.set_nz(sum.value);
    }

    /// ADC: the operand and Carry are added to the accumulator.
    pub fn adc(&mut self, am: AddressingMode) -> (r: Result<(), Fault>)
        requires
            old(self)@.wf(),
        ensures
            final(self)@.wf(),
            (final(self)@, r) == old(self)@.adc(am),
    {
        if self.p.small_acc() {
            let val: u8 = am.loadb(self)?;
            let sum: Sum8 = add8(
                low_byte(self.a),
                val,
                self.p.carry(),
                self.p.decimal(),
                false,
            );
            self.take_sum8(sum);
        } else {
            let val: u16 = am.loadw(self)?;
            let sum: Sum16 = add16(self.a, val, self.p.carry(), self.p.decimal(), false);
            self.take_sum16(sum);
        }
        Ok(())
    }

    /// SBC: the operand is subtracted from the accumulator, with Carry clear
    /// standing for a borrow: the complement of the operand is added.
    pub fn sbc(&mut self, am: AddressingMode) -> (r: Result<(), Fault>)
        requires
            old(self)@.wf(),
        ensures
            final(self)@.wf(),
            (final(self)@, r) == old(self)@.sbc(am),
    {
        if self.p.small_acc() {
            let val: u8 = am.loadb(self)?;
            let sum: Sum8 = add8(
                low_byte(self.a),
                0xFF - val,
                self.p.carry(),
                self.p.decimal(),
                true,
            );
            self.take_sum8(sum);
        } else {
            let val: u16 = am.loadw(self)?;
            let sum: Sum16 = add16(self.a, 0xFFFF - val, self.p.carry(), self.p.decimal(), true);
            self.take_sum16(sum);
        }
        Ok(())
    }

    /// ASL A: the accumulator moves one bit left; the bit that leaves goes
    /// to Carry and a zero comes in.
    pub fn asl_a(&mut self)
        ensures
            final(self)@ == old(self)@.asl_a(),
    {
        if self.p.small_acc() {
            let a: u8 = low_byte(self.a);
            self.p.set_carry(self.a & 0x80 != 0);
            let val: u8 = self.p.set_nz_8(a << 1);
            self.a = replace_low(self.a, val);
        } else {
            self.p.set_carry(self.a & 0x8000 != 0);
            self.a = self.p.set_nz(self.a << 1);
        }
    }

    /// LSR A: the accumulator moves one bit right; the bit that leaves goes
    /// to Carry and a zero comes in.
    pub fn lsr_a(&mut self)
        ensures
            final(self)@ == old(self)@.lsr_a(),
    {
        if self.p.small_acc() {
            let a: u8 = low_byte(self.a);
            self.p.set_carry(self.a & 0x01 != 0);
            let val: u8 = self.p.set_nz_8(a >> 1);
            self.a = replace_low(self.a, val);
        } else {
            self.p.set_carry(self.a & 0x0001 != 0);
            self.a = self.p.set_nz(self.a >> 1);
        }
    }

    /// AND: the accumulator is and-ed with the operand.
    pub fn and(&mut self, am: AddressingMode) -> (r: Result<(), Fault>)
        requires
            old(self)@.wf(),
        ensures
            final(self)@.wf(),
            (final(self)@, r) == old(self)@.and(am),
    {
        if self.p.small_acc() {
            let val: u8 = am.loadb(self)?;
            let res: u8 = low_byte(self.a) & val;
            self.p.set_nz_8(res);
            self.a = replace_low(self.a, res);
        } else {
            let val: u16 = am.loadw(self)?;
            let res: u16 = self.a & val;
            self.a = self.p.set_nz(res);
        }
        Ok(())
    }

    /// ORA: the accumulator is or-ed with the operand.
    pub fn ora(&mut self, am: AddressingMode) -> (r: Result<(), Fault>)
        requires
            old(self)@.wf(),
        ensures
            final(self)@.wf(),
            (final(self)@, r) == old(self)@.ora(am),
    {
        if self.p.small_acc() {
            let val: u8 = am.loadb(self)?;
            let res: u8 = low_byte(self.a) | val;
            self.p.set_nz_8(res);
            self.a = replace_low(self.a, res);
        } else {
            let val: u16 = am.loadw(self)?;
            let res: u16 = self.a | val;
            self.a = self.p.set_nz(res);
        }
        Ok(())
    }

    /// CMP: the accumulator is compared with the operand; only flags change.
    pub fn cmp(&mut self, am: AddressingMode) -> (r: Result<(), Fault>)
        requires
            old(self)@.wf(),
        ensures
            final(self)@.wf(),
            (final(self)@, r) == old(self)@.cmp(am),
    {
        if self.p.small_acc() {
            let a: u8 = low_byte(self.a);
            let val: u8 = am.loadb(self)?;
            self.compare8(a, val);
        } else {
            let a: u16 = self.a;
            let val: u16 = am.loadw(self)?;
            self.compare(a, val);
        }
        Ok(())
    }

    /// CPX: X is compared with the operand; only flags change.
    pub fn cpx(&mut self, am: AddressingMode) -> (r: Result<(), Fault>)
        requires
            old(self)@.wf(),
        ensures
            final(self)@.wf(),
            (final(self)@, r) == old(self)@.cpx(am),
    {
        if self.p.small_idx() {
            let x: u8 = low_byte(self.x);
            let val: u8 = am.loadb(self)?;
            self.compare8(x, val);
        } else {
            let x: u16 = self.x;
            let val: u16 = am.loadw(self)?;
            self.compare(x, val);
        }
        Ok(())
    }

    /// CPY: Y is compared with the operand; only flags change.
    pub fn cpy(&mut self, am: AddressingMode) -> (r: Result<(), Fault>)
        requires
            old(self)@.wf(),
        ensures
            final(self)@.wf(),
            (final(self)@, r) == old(self)@.cpy(am),
    {
        if self.p.small_idx() {
            let y: u8 = low_byte(self.y);
            let val: u8 = am.loadb(self)?;
            self.compare8(y, val);
        } else {
            let y: u16 = self.y;
            let val: u16 = am.loadw(self)?;
            self.compare(y, val);
        }
        Ok(())
    }

    /// INX: X goes up by one, wrapping at the index width.
    pub fn inx(&mut self)
        ensures
            final(self)@ == old(self)@.inx(),
    {
        if self.p.small_idx() {
            let res: u8 = self.p.set_nz_8(low_byte(self.x).wrapping_add(1));
            self.x = replace_low(self.x, res);
        } else {
            self.x = self.p.set_nz(self.x.wrapping_add(1));
        }
    }

    /// INY: Y goes up by one, wrapping at the index width.
    pub fn iny(&mut self)
        ensures
            final(self)@ == old(self)@.iny(),
    {
        if self.p.small_idx() {
            let res: u8 = self.p.set_nz_8(low_byte(self.y).wrapping_add(1));
            self.y = replace_low(self.y, res);
        } else {
            self.y = self.p.set_nz(self.y.wrapping_add(1));
        }
    }

    /// DEX: X goes down by one, wrapping at the index width.
    pub fn dex(&mut self)
        ensures
            final(self)@ == old(self)@.dex(),
    {
        if self.p.small_idx() {
            let res: u8 = self.p.set_nz_8(low_byte(self.x).wrapping_sub(1));
            self.x = replace_low(self.x, res);
        } else {
            self.x = self.p.set_nz(self.x.wrapping_sub(1));
        }
    }

    /// DEY: Y goes down by one, wrapping at the index width.
    pub fn dey(&mut self)
        ensures
            final(self)@ == old(self)@.dey(),
    {
        if self.p.small_idx() {
            let res: u8 = self.p.set_nz_8(low_byte(self.y).wrapping_sub(1));
            self.y = replace_low(self.y, res);
        } else {
            self.y = self.p.set_nz(self.y.wrapping_sub(1));
        }
    }

    /// INC: the byte or word at the operand's location goes up by one,
    /// wrapping; Zero and Negative record the new value before it is stored.
    pub fn inc(&mut self, am: AddressingMode) -> (r: Result<(), Fault>)
        requires
            old(self)@.wf(),
        ensures
            final(self)@.wf(),
            (final(self)@, r) == old(self)@.inc(am),
    {
        let (bank, addr) = am.address(self)?;
        if self.p.small_acc() {
            let res: u8 = self.loadb(bank, addr)?.wrapping_add(1);
            self.p.set_nz_8(res);
            self.storeb(bank, addr, res)
        } else {
            let res: u16 = self.loadw(bank, addr)?.wrapping_add(1);
            self.p.set_nz(res);
            self.storew(bank, addr, res)
        }
    }
}
} // verus!
