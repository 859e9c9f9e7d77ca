//! Loads, stores, register transfers and the stack instructions.
//!
//! Each instruction works on the low byte alone when the width flag that
//! governs its register is set, and on the whole word otherwise.

use super::addressing::AddressingMode;
use super::{Machine, W65C816};
use crate::fault::Fault;
use crate::word::{high, high_byte, join, low, low_byte, make_word, replace_low, widen, with_low};
use vstd::prelude::*;

verus! {

impl Machine {
    /// The accumulator's low byte is replaced and recorded in Zero and Negative.
    pub open spec fn put_a8(self, val: u8) -> Machine {
        Machine { a: with_low(self.a, val), p: self.p.nz8(val), ..self }
    }

    /// The accumulator is replaced and recorded in Zero and Negative.
    pub open spec fn put_a16(self, val: u16) -> Machine {
        Machine { a: val, p: self.p.nz16(val), ..self }
    }

    /// The low byte of X is replaced and recorded in Zero and Negative.
    pub open spec fn put_x8(self, val: u8) -> Machine {
        Machine { x: with_low(self.x, val), p: self.p.nz8(val), ..self }
    }

    /// X is replaced and recorded in Zero and Negative.
    pub open spec fn put_x16(self, val: u16) -> Machine {
        Machine { x: val, p: self.p.nz16(val), ..self }
    }

    /// The low byte of Y is replaced and recorded in Zero and Negative.
    pub open spec fn put_y8(self, val: u8) -> Machine {
        Machine { y: with_low(self.y, val), p: self.p.nz8(val), ..self }
    }

    /// Y is replaced and recorded in Zero and Negative.
    pub open spec fn put_y16(self, val: u16) -> Machine {
        Machine { y: val, p: self.p.nz16(val), ..self }
    }

    /// LDA: the operand goes to the accumulator.
    pub open spec fn lda(self, am: AddressingMode) -> (Machine, Result<(), Fault>) {
        if self.small_acc() {
            let (m, r) = self.read8(am);
            match r {
                Err(e) => (m, Err(e)),
                Ok(val) => (m.put_a8(val), Ok(())),
            }
        } else {
            let (m, r) = self.read16(am);
            match r {
                Err(e) => (m, Err(e)),
                Ok(val) => (m.put_a16(val), Ok(())),
            }
        }
    }

    /// LDX: the operand goes to X; a byte operand clears the high byte.
    pub open spec fn ldx(self, am: AddressingMode) -> (Machine, Result<(), Fault>) {
        if self.small_idx() {
            let (m, r) = self.read8(am);
            match r {
                Err(e) => (m, Err(e)),
                Ok(val) => (Machine { x: val as u16, p: m.p.nz8(val), ..m }, Ok(())),
            }
        } else {
            let (m, r) = self.read16(am);
            match r {
                Err(e) => (m, Err(e)),
                Ok(val) => (m.put_x16(val), Ok(())),
            }
        }
    }

    /// LDY: the operand goes to Y; a byte operand clears the high byte.
    pub open spec fn ldy(self, am: AddressingMode) -> (Machine, Result<(), Fault>) {
        if self.small_idx() {
            let (m, r) = self.read8(am);
            match r {
                Err(e) => (m, Err(e)),
                Ok(val) => (Machine { y: val as u16, p: m.p.nz8(val), ..m }, Ok(())),
            }
        } else {
            let (m, r) = self.read16(am);
            match r {
                Err(e) => (m, Err(e)),
                Ok(val) => (m.put_y16(val), Ok(())),
            }
        }
    }

    /// STA: A goes to the operand's location.
    pub open spec fn sta(self, am: AddressingMode) -> (Machine, Result<(), Fault>) {
        if self.small_acc() {
            self.write8(am, low(self.a))
        } else {
            self.write16(am, self.a)
        }
    }

    /// STX: X goes to the operand's location.
    pub open spec fn stx(self, am: AddressingMode) -> (Machine, Result<(), Fault>) {
        if self.small_idx() {
            self.write8(am, low(self.x))
        } else {
            self.write16(am, self.x)
        }
    }

    /// STY: Y goes to the operand's location.
    pub open spec fn sty(self, am: AddressingMode) -> (Machine, Result<(), Fault>) {
        if self.small_idx() {
            self.write8(am, low(self.y))
        } else {
            self.write16(am, self.y)
        }
    }

    /// TAX: A goes to X, at the width of X.
    pub open spec fn tax(self) -> Machine {
        if self.small_idx() {
            self.put_x8(low(self.a))
        } else {
            self.put_x16(self.a)
        }
    }

    /// TXA: X goes to A, at the width of A.
    pub open spec fn txa(self) -> Machine {
        if self.small_acc() {
            self.put_a8(low(self.x))
        } else {
            self.put_a16(self.x)
        }
    }

    /// TYX: Y goes to X, at the width of X.
    pub open spec fn tyx(self) -> Machine {
        if self.small_idx() {
            self.put_x8(low(self.y))
        } else {
            self.put_x16(self.y)
        }
    }

    /// TXS: X goes to the stack pointer, which stays in page 1 in emulation
    /// mode. No flag changes.
    pub open spec fn txs(self) -> Machine {
        if self.emulation {
            Machine { s: join(1, low(self.x)), ..self }
        } else {
            Machine { s: self.x, ..self }
        }
    }

    /// XBA: the two bytes of the accumulator change places. Zero and
    /// Negative record the new low byte, whatever the accumulator width.
    pub open spec fn xba(self) -> Machine {
        Machine { a: join(low(self.a), high(self.a)), p: self.p.nz8(high(self.a)), ..self }
    }

    /// PHA: A is pushed, one byte or two.
    pub open spec fn pha(self) -> (Machine, Result<(), Fault>) {
        if self.small_acc() {
            self.pushb(low(self.a))
        } else {
            self.pushw(self.a)
        }
    }

    /// PLA: A is pulled, one byte or two; a byte leaves the high byte of A.
    pub open spec fn pla(self) -> (Machine, Result<(), Fault>) {
        if self.small_acc() {
            let (m, r) = self.popb();
            match r {
                Err(e) => (m, Err(e)),
                Ok(val) => (m.put_a8(val), Ok(())),
            }
        } else {
            let (m, r) = self.popw();
            match r {
                Err(e) => (m, Err(e)),
                Ok(val) => (m.put_a16(val), Ok(())),
            }
        }
    }

    /// PHX: X is pushed, one byte or two.
    pub open spec fn phx(self) -> (Machine, Result<(), Fault>) {
        if self.small_idx() {
            self.pushb(low(self.x))
        } else {
            self.pushw(self.x)
        }
    }

    /// PLX: X is pulled, one byte or two; a byte leaves the high byte of X.
    pub open spec fn plx(self) -> (Machine, Result<(), Fault>) {
        if self.small_idx() {
            let (m, r) = self.popb();
            match r {
                Err(e) => (m, Err(e)),
                Ok(val) => (m.put_x8(val), Ok(())),
            }
        } else {
            let (m, r) = self.popw();
            match r {
                Err(e) => (m, Err(e)),
                Ok(val) => (m.put_x16(val), Ok(())),
            }
        }
    }

    /// PHY: Y is pushed, one byte or two.
    pub open spec fn phy(self) -> (Machine, Result<(), Fault>) {
        if self.small_idx() {
            self.pushb(low(self.y))
        } else {
            self.pushw(self.y)
        }
    }

    /// PLY: Y is pulled, one byte or two; a byte leaves the high byte of Y.
    pub open spec fn ply(self) -> (Machine, Result<(), Fault>) {
        if self.small_idx() {
            let (m, r) = self.popb();
            match r {
                Err(e) => (m, Err(e)),
                Ok(val) => (m.put_y8(val), Ok(())),
            }
        } else {
            let (m, r) = self.popw();
            match r {
                Err(e) => (m, Err(e)),
                Ok(val) => (m.put_y16(val), Ok(())),
            }
        }
    }
}

impl W65C816 {
    /// LDA: the operand goes to the accumulator.
    pub fn lda(&mut self, am: AddressingMode) -> (r: Result<(), Fault>)
        requires
            old(self)@.wf(),
        ensures
            final(self)@.wf(),
            (final(self)@, r) == old(self)@.lda(am),
    {
        if self.p.small_acc() {
            let val: u8 = am.loadb(self)?;
            let val: u8 = self.p.set_nz_8(val);
            self.a = replace_low(self.a, val);
        } else {
            let val: u16 = am.loadw(self)?;
            self.a = self.p.set_nz(val);
        }
        Ok(())
    }

    /// LDX: the operand goes to X; a byte operand clears the high byte.
    pub fn ldx(&mut self, am: AddressingMode) -> (r: Result<(), Fault>)
        requires
            old(self)@.wf(),
        ensures
            final(self)@.wf(),
            (final(self)@, r) == old(self)@.ldx(am),
    {
        if self.p.small_idx() {
            let val: u8 = am.loadb(self)?;
            let val: u8 = self.p.set_nz_8(val);
            self.x = widen(val);
        } else {
            let val: u16 = am.loadw(self)?;
            self.x = self.p.set_nz(val);
        }
        Ok(())
    }

    /// LDY: the operand goes to Y; a byte operand clears the high byte.
    pub fn ldy(&mut self, am: AddressingMode) -> (r: Result<(), Fault>)
        requires
            old(self)@.wf(),
        ensures
            final(self)@.wf(),
            (final(self)@, r) == old(self)@.ldy(am),
    {
        if self.p.small_idx() {
            let val: u8 = am.loadb(self)?;
            let val: u8 = self.p.set_nz_8(val);
            self.y = widen(val);
        } else {
            let val: u16 = am.loadw(self)?;
            self.y = self.p.set_nz(val);
        }
        Ok(())
    }

    /// STA: A goes to the operand's location.
    pub fn sta(&mut self, am: AddressingMode) -> (r: Result<(), Fault>)
        requires
            old(self)@.wf(),
        ensures
            final(self)@.wf(),
            (final(self)@, r) == old(self)@.sta(am),
    {
        if self.p.small_acc() {
            let b: u8 = low_byte(self.a);
            am.storeb(self, b)
        } else {
            let w: u16 = self.a;
            am.storew(self, w)
        }
    }

    /// STX: X goes to the operand's location.
    pub fn stx(&mut self, am: AddressingMode) -> (r: Result<(), Fault>)
        requires
            old(self)@.wf(),
        ensures
            final(self)@.wf(),
            (final(self)@, r) == old(self)@.stx(am),
    {
        if self.p.small_idx() {
            let b: u8 = low_byte(self.x);
            am.storeb(self, b)
        } else {
            let w: u16 = self.x;
            am.storew(self, w)
        }
    }

    /// STY: Y goes to the operand's location.
    pub fn sty(&mut self, am: AddressingMode) -> (r: Result<(), Fault>)
        requires
            old(self)@.wf(),
        ensures
            final(self)@.wf(),
            (final(self)@, r) == old(self)@.sty(am),
    {
        if self.p.small_idx() {
            let b: u8 = low_byte(self.y);
            am.storeb(self, b)
        } else {
            let w: u16 = self.y;
            am.storew(self, w)
        }
    }

    /// TAX: A goes to X, at the width of X.
    pub fn tax(&mut self)
        ensures
            final(self)@ == old(self)@.tax(),
    {
        if self.p.small_idx() {
            let val: u8 = self.p.set_nz_8(low_byte(self.a));
            self.x = replace_low(self.x, val);
        } else {
            self.x = self.p.set_nz(self.a);
        }
    }

    /// TXA: X goes to A, at the width of A.
    pub fn txa(&mut self)
        ensures
            final(self)@ == old(self)@.txa(),
    {
        if self.p.small_acc() {
            let val: u8 = self.p.set_nz_8(low_byte(self.x));
            self.a = replace_low(self.a, val);
        } else {
            self.a = self.p.set_nz(self.x);
        }
    }

    /// TYX: Y goes to X, at the width of X.
    pub fn tyx(&mut self)
        ensures
            final(self)@ == old(self)@.tyx(),
    {
        if self.p.small_idx() {
            let val: u8 = self.p.set_nz_8(low_byte(self.y));
            self.x = replace_low(self.x, val);
        } else {
            self.x = self.p.set_nz(self.y);
        }
    }

    /// TXS: X goes to the stack pointer, which stays in page 1 in emulation
    /// mode. No flag changes.
    pub fn txs(&mut self)
        ensures
            final(self)@ == old(self)@.txs(),
    {
        if self.emulation {
            self.s = make_word(1, low_byte(self.x));
        } else {
            self.s = self.x;
        }
    }

    /// XBA: the two bytes of the accumulator change places. Zero and
    /// Negative record the new low byte, whatever the accumulator width.
    pub fn xba(&mut self)
        ensures
            final(self)@ == old(self)@.xba(),
    {
        let lo: u8 = low_byte(self.a);
        let hi: u8 = high_byte(self.a);
        let hi: u8 = self.p.set_nz_8(hi);
        self.a = make_word(lo, hi);
    }

    /// PHA: A is pushed, one byte or two.
    pub fn pha(&mut self) -> (r: Result<(), Fault>)
        requires
            old(self)@.wf(),
        ensures
            final(self)@.wf(),
            (final(self)@, r) == old(self)@.pha(),
    {
        if self.p.small_acc() {
            let b: u8 = low_byte(self.a);
            self.pushb(b)
        } else {
            let w: u16 = self.a;
            self.pushw(w)
        }
    }

    /// PLA: A is pulled, one byte or two; a byte leaves the high byte of A.
    pub fn pla(&mut self) -> (r: Result<(), Fault>)
        requires
            old(self)@.wf(),
        ensures
            final(self)@.wf(),
            (final(self)@, r) == old(self)@.pla(),
    {
        if self.p.small_acc() {
            let val: u8 = self.popb()?;
            let val: u8 = self.p.set_nz_8(val);
            self.a = replace_low(self.a, val);
        } else {
            let val: u16 = self.popw()?;
            self.a = self.p.set_nz(val);
        }
        Ok(())
    }

    /// PHX: X is pushed, one byte or two.
    pub fn phx(&mut self) -> (r: Result<(), Fault>)
        requires
            old(self)@.wf(),
        ensures
            final(self)@.wf(),
            (final(self)@, r) == old(self)@.phx(),
    {
        if self.p.small_idx() {
            let b: u8 = low_byte(self.x);
            self.pushb(b)
        } else {
            let w: u16 = self.x;
            self.pushw(w)
        }
    }

    /// PLX: X is pulled, one byte or two; a byte leaves the high byte of X.
    pub fn plx(&mut self) -> (r: Result<(), Fault>)
        requires
            old(self)@.wf(),
        ensures
            final(self)@.wf(),
            (final(self)@, r) == old(self)@.plx(),
    {
        if self.p.small_idx() {
            let val: u8 = self.popb()?;
            let val: u8 = self.p.set_nz_8(val);
            self.x = replace_low(self.x, val);
        } else {
            let val: u16 = self.popw()?;
            self.x = self.p.set_nz(val);
        }
        Ok(())
    }

    /// PHY: Y is pushed, one byte or two.
    pub fn phy(&mut self) -> (r: Result<(), Fault>)
        requires
            old(self)@.wf(),
        ensures
            final(self)@.wf(),
            (final(self)@, r) == old(self)@.phy(),
    {
        if self.p.small_idx() {
            let b: u8 = low_byte(self.y);
            self.pushb(b)
        } else {
            let w: u16 = self.y;
            self.pushw(w)
        }
    }

    /// PLY: Y is pulled, one byte or two; a byte leaves the high byte of Y.
    pub fn ply(&mut self) -> (r: Result<(), Fault>)
        requires
            old(self)@.wf(),
        ensures
            final(self)@.wf(),
            (final(self)@, r) == old(self)@.ply(),
    {
        if self.p.small_idx() {
            let val: u8 = self.popb()?;
            let val: u8 = self.p.set_nz_8(val);
            self.y = replace_low(self.y, val);
        } else {
            let val: u16 = self.popw()?;
            self.y = self.p.set_nz(val);
        }
        Ok(())
    }
}
} // verus!
