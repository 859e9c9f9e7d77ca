//! The processor status register: eight independent flags packed in a byte.

use vstd::prelude::*;

verus! {

pub const CARRY_FLAG: u8 = 0x01;

pub const ZERO_FLAG: u8 = 0x02;

pub const IRQ_FLAG: u8 = 0x04;

pub const DEC_FLAG: u8 = 0x08;

pub const SMALL_IDX_FLAG: u8 = 0x10;

pub const SMALL_ACC_FLAG: u8 = 0x20;

pub const OVERFLOW_FLAG: u8 = 0x40;

pub const NEG_FLAG: u8 = 0x80;

/// Whether `flag` is the mask of exactly one of the eight flags.
pub open spec fn is_flag(flag: u8) -> bool {
    flag == 0x01 || flag == 0x02 || flag == 0x04 || flag == 0x08 || flag == 0x10 || flag == 0x20
        || flag == 0x40 || flag == 0x80
}

#[derive(Clone, Copy, Debug, PartialEq, Eq, Structural)]
pub struct Status(pub u8);

impl Status {
    /// Whether any bit of `flag` is set.
    pub open spec fn has(self, flag: u8) -> bool {
        self.0 & flag != 0
    }

    /// The register with the bits of `flag` set or cleared.
    pub open spec fn with(self, flag: u8, value: bool) -> Status {
        if value {
            Status(self.0 | flag)
        } else {
            Status(self.0 & !flag)
        }
    }

    /// The register after recording an 8-bit result: Zero iff the value is
    /// zero, Negative iff its bit 7 is set.
    pub open spec fn nz8(self, val: u8) -> Status {
        self.with(ZERO_FLAG, val == 0).with(NEG_FLAG, val & 0x80 != 0)
    }

    /// The register after recording a 16-bit result: Zero iff the value is
    /// zero, Negative iff its bit 15 is set.
    pub open spec fn nz16(self, val: u16) -> Status {
        self.with(ZERO_FLAG, val == 0).with(NEG_FLAG, val & 0x8000 != 0)
    }

    /// The power-on value: 8-bit index, 8-bit accumulator, interrupts disabled.
    pub fn new() -> (s: Status)
        ensures
            s.0 == 0x34,
            s.has(SMALL_IDX_FLAG) && s.has(SMALL_ACC_FLAG) && s.has(IRQ_FLAG),
            !s.has(CARRY_FLAG) && !s.has(ZERO_FLAG) && !s.has(DEC_FLAG) && !s.has(OVERFLOW_FLAG)
                && !s.has(NEG_FLAG),
    {
        let mut s: Status = Status(0);
        s.0 = SMALL_IDX_FLAG | SMALL_ACC_FLAG | IRQ_FLAG;
        assert(0x10u8 | 0x20u8 | 0x04u8 == 0x34u8) by (bit_vector);
        assert(0x34u8 & 0x10 != 0 && 0x34u8 & 0x20 != 0 && 0x34u8 & 0x04 != 0 && 0x34u8 & 0x01 == 0
            && 0x34u8 & 0x02 == 0 && 0x34u8 & 0x08 == 0 && 0x34u8 & 0x40 == 0 && 0x34u8 & 0x80
            == 0) by (bit_vector);
        s
    }

    /// Whether any bit of `flag` is set.
    fn get(&self, flag: u8) -> (b: bool)
        ensures
            b == self.has(flag),
    {
        (self.0 & flag) != 0
    }

    /// Sets or clears the bits of `flag`.
    fn set(&mut self, flag: u8, value: bool)
        ensures
            *final(self) == old(self).with(flag, value),
    {
        if value {
            self.0 = self.0 | flag;
        } else {
            self.0 = self.0 & !flag;
        }
    }

    /// Whether Carry is set.
    pub fn carry(&self) -> (b: bool)
        ensures
            b == self.has(CARRY_FLAG),
    {
        self.get(CARRY_FLAG)
    }

    /// Whether Zero is set.
    pub fn zero(&self) -> (b: bool)
        ensures
            b == self.has(ZERO_FLAG),
    {
        self.get(ZERO_FLAG)
    }

    /// Whether IRQ-disable is set.
    pub fn interrupt(&self) -> (b: bool)
        ensures
            b == self.has(IRQ_FLAG),
    {
        self.get(IRQ_FLAG)
    }

    /// Whether Decimal is set.
    pub fn decimal(&self) -> (b: bool)
        ensures
            b == self.has(DEC_FLAG),
    {
        self.get(DEC_FLAG)
    }

    /// Whether the 8-bit index width is selected.
    pub fn small_idx(&self) -> (b: bool)
        ensures
            b == self.has(SMALL_IDX_FLAG),
    {
        self.get(SMALL_IDX_FLAG)
    }

    /// Whether the 8-bit accumulator width is selected.
    pub fn small_acc(&self) -> (b: bool)
        ensures
            b == self.has(SMALL_ACC_FLAG),
    {
        self.get(SMALL_ACC_FLAG)
    }

    /// Whether Overflow is set.
    pub fn overflow(&self) -> (b: bool)
        ensures
            b == self.has(OVERFLOW_FLAG),
    {
        self.get(OVERFLOW_FLAG)
    }

    /// Whether Negative is set.
    pub fn negative(&self) -> (b: bool)
        ensures
            b == self.has(NEG_FLAG),
    {
        self.get(NEG_FLAG)
    }

    /// Writes Carry; the other flags stay.
    pub fn set_carry(&mut self, value: bool)
        ensures
            *final(self) == old(self).with(CARRY_FLAG, value),
    {
        self.set(CARRY_FLAG, value);
    }

    /// Writes Zero; the other flags stay.
    pub fn set_zero(&mut self, value: bool)
        ensures
            *final(self) == old(self).with(ZERO_FLAG, value),
    {
        self.set(ZERO_FLAG, value);
    }

    /// Writes IRQ-disable; the other flags stay.
    pub fn set_interrupt(&mut self, value: bool)
        ensures
            *final(self) == old(self).with(IRQ_FLAG, value),
    {
        self.set(IRQ_FLAG, value);
    }

    /// Writes Decimal; the other flags stay.
    pub fn set_decimal(&mut self, value: bool)
        ensures
            *final(self) == old(self).with(DEC_FLAG, value),
    {
        self.set(DEC_FLAG, value);
    }

    /// Selects or deselects the 8-bit index width; the other flags stay.
    pub fn set_small_idx(&mut self, value: bool)
        ensures
            *final(self) == old(self).with(SMALL_IDX_FLAG, value),
    {
        self.set(SMALL_IDX_FLAG, value);
    }

    /// Selects or deselects the 8-bit accumulator width; the other flags stay.
    pub fn set_small_acc(&mut self, value: bool)
        ensures
            *final(self) == old(self).with(SMALL_ACC_FLAG, value),
    {
        self.set(SMALL_ACC_FLAG, value);
    }

    /// Writes Overflow; the other flags stay.
    pub fn set_overflow(&mut self, value: bool)
        ensures
            *final(self) == old(self).with(OVERFLOW_FLAG, value),
    {
        self.set(OVERFLOW_FLAG, value);
    }

    /// Writes Negative; the other flags stay.
    pub fn set_negative(&mut self, value: bool)
        ensures
            *final(self) == old(self).with(NEG_FLAG, value),
    {
        self.set(NEG_FLAG, value);
    }

    /// Records an 8-bit result in Zero and Negative and hands the value back.
    pub fn set_nz_8(&mut self, val: u8) -> (r: u8)
        ensures
            r == val,
            *final(self) == old(self).nz8(val),
            final(self).has(ZERO_FLAG) <==> val == 0,
            final(self).has(NEG_FLAG) <==> val & 0x80 != 0,
            forall|g: u8|
                is_flag(g) && g != ZERO_FLAG && g != NEG_FLAG ==> final(self).has(g)
                    == old(self).has(g),
    {
        proof {
            lemma_nz_flags(*old(self), val == 0, val & 0x80 != 0);
        }
        self.set_zero(val == 0);
        self.set_negative(val & 0x80 != 0);
        val
    }

    /// Records a 16-bit result in Zero and Negative and hands the value back.
    pub fn set_nz(&mut self, val: u16) -> (r: u16)
        ensures
            r == val,
            *final(self) == old(self).nz16(val),
            final(self).has(ZERO_FLAG) <==> val == 0,
            final(self).has(NEG_FLAG) <==> val & 0x8000 != 0,
            forall|g: u8|
                is_flag(g) && g != ZERO_FLAG && g != NEG_FLAG ==> final(self).has(g)
                    == old(self).has(g),
    {
        proof {
            lemma_nz_flags(*old(self), val == 0, val & 0x8000 != 0);
        }
        self.set_zero(val == 0);
        self.set_negative(val & 0x8000 != 0);
        val
    }
}

/// Writing one flag makes it read as written and leaves the other seven as
/// they were.
pub proof fn lemma_with_has(p: Status, f: u8, g: u8, value: bool)
    requires
        is_flag(f),
        is_flag(g),
    ensures
        p.with(f, value).has(g) == (if f == g {
            value
        } else {
            p.has(g)
        }),
{
    let b: u8 = p.0;
    assert(((b | f) & g != 0) == (if f == g {
        true
    } else {
        b & g != 0
    })) by (bit_vector)
        requires
            is_flag(f),
            is_flag(g),
    ;
    assert(((b & !f) & g != 0) == (if f == g {
        false
    } else {
        b & g != 0
    })) by (bit_vector)
        requires
            is_flag(f),
            is_flag(g),
    ;
}

/// Writing Zero and then Negative fixes both and leaves the other six flags.
pub proof fn lemma_nz_flags(p: Status, z: bool, n: bool)
    ensures
        p.with(ZERO_FLAG, z).with(NEG_FLAG, n).has(ZERO_FLAG) == z,
        p.with(ZERO_FLAG, z).with(NEG_FLAG, n).has(NEG_FLAG) == n,
        forall|g: u8|
            is_flag(g) && g != ZERO_FLAG && g != NEG_FLAG ==> p.with(ZERO_FLAG, z).with(
                NEG_FLAG,
                n,
            ).has(g) == p.has(g),
{
    let q = p.with(ZERO_FLAG, z);
    lemma_with_has(p, ZERO_FLAG, ZERO_FLAG, z);
    lemma_with_has(q, NEG_FLAG, ZERO_FLAG, n);
    lemma_with_has(q, NEG_FLAG, NEG_FLAG, n);
    assert forall|g: u8| is_flag(g) && g != ZERO_FLAG && g != NEG_FLAG implies q.with(
        NEG_FLAG,
        n,
    ).has(g) == p.has(g) by {
        lemma_with_has(p, ZERO_FLAG, g, z);
        lemma_with_has(q, NEG_FLAG, g, n);
    }
}

} // verus!
