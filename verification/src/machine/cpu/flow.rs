//! Branches, jumps, calls and returns, the flag instructions and the two
//! instructions that halt the core.

use super::addressing::AddressingMode;
use super::status::{CARRY_FLAG, DEC_FLAG, IRQ_FLAG, NEG_FLAG, OVERFLOW_FLAG, ZERO_FLAG};
use super::{Machine, RunStatus, W65C816};
use crate::fault::Fault;
use crate::word::{high_byte, low_byte, make_word};
use vstd::prelude::*;

verus! {

impl Machine {
    /// A branch to the operand's location, taken iff `taken`. The
    /// location is resolved either way.
    pub open spec fn branch_if(self, am: AddressingMode, taken: bool) -> (Machine, Result<
        (),
        Fault,
    >) {
        let (m, r) = self.address(am);
        match r {
            Err(e) => (m, Err(e)),
            Ok(target) => if taken {
                (m.branch(target), Ok(()))
            } else {
                (m, Ok(()))
            },
        }
    }

    /// BRA: always taken.
    pub open spec fn bra(self, am: AddressingMode) -> (Machine, Result<(), Fault>) {
        self.branch_if(am, true)
    }

    /// BEQ: taken iff Zero is set.
    pub open spec fn beq(self, am: AddressingMode) -> (Machine, Result<(), Fault>) {
        self.branch_if(am, self.p.has(ZERO_FLAG))
    }

    /// BMI: taken iff Negative is set.
    pub open spec fn bmi(self, am: AddressingMode) -> (Machine, Result<(), Fault>) {
        self.branch_if(am, self.p.has(NEG_FLAG))
    }

    /// BNE: taken iff Zero is clear.
    pub open spec fn bne(self, am: AddressingMode) -> (Machine, Result<(), Fault>) {
        self.branch_if(am, !self.p.has(ZERO_FLAG))
    }

    /// JMP: the program counter takes the operand's address; the program
    /// bank stays.
    pub open spec fn jmp(self, am: AddressingMode) -> (Machine, Result<(), Fault>) {
        let (m, r) = self.address(am);
        match r {
            Err(e) => (m, Err(e)),
            Ok(target) => (Machine { pc: target.1, ..m }, Ok(())),
        }
    }

    /// JML: program bank and program counter take the operand's location.
    pub open spec fn jml(self, am: AddressingMode) -> (Machine, Result<(), Fault>) {
        self.branch_if(am, true)
    }

    /// JSR: the address of the last byte of the call instruction is pushed,
    /// high byte first, then the program counter takes the operand's address.
    pub open spec fn jsr(self, am: AddressingMode) -> (Machine, Result<(), Fault>) {
        let (m1, r1) = self.pushw(self.pc.wrapping_sub(1));
        match r1 {
            Err(e) => (m1, Err(e)),
            Ok(_) => m1.jmp(am),
        }
    }

    /// JSL: the program bank is pushed, then the address of the last byte
    /// of the call instruction, then control moves to the operand's location.
    pub open spec fn jsl(self, am: AddressingMode) -> (Machine, Result<(), Fault>) {
        let (m1, r1) = self.pushb(self.pbr);
        match r1 {
            Err(e) => (m1, Err(e)),
            Ok(_) => {
                let (m2, r2) = m1.pushw(m1.pc.wrapping_sub(1));
                match r2 {
                    Err(e) => (m2, Err(e)),
                    Ok(_) => m2.jml(am),
                }
            },
        }
    }

    /// RTS: the program counter is pulled and moved one past the pulled
    /// address.
    pub open spec fn rts(self) -> (Machine, Result<(), Fault>) {
        let (m, r) = self.popw();
        match r {
            Err(e) => (m, Err(e)),
            Ok(pc) => (Machine { pc: pc.wrapping_add(1), ..m }, Ok(())),
        }
    }

    /// RTL: as RTS, and the program bank is pulled after the address.
    pub open spec fn rtl(self) -> (Machine, Result<(), Fault>) {
        let (m1, r1) = self.popw();
        match r1 {
            Err(e) => (m1, Err(e)),
            Ok(pc) => {
                let (m2, r2) = m1.popb();
                match r2 {
                    Err(e) => (m2, Err(e)),
                    Ok(pbr) => (Machine { pbr, pc: pc.wrapping_add(1), ..m2 }, Ok(())),
                }
            },
        }
    }

    /// One flag is written; everything else stays.
    pub open spec fn flag(self, flag: u8, value: bool) -> Machine {
        Machine { p: self.p.with(flag, value), ..self }
    }

    /// CLC: Carry is cleared.
    pub open spec fn clc(self) -> Machine {
        self.flag(CARRY_FLAG, false)
    }

    /// SEC: Carry is set.
    pub open spec fn sec(self) -> Machine {
        self.flag(CARRY_FLAG, true)
    }

    /// CLD: Decimal is cleared.
    pub open spec fn cld(self) -> Machine {
        self.flag(DEC_FLAG, false)
    }

    /// SED: Decimal is set.
    pub open spec fn sed(self) -> Machine {
        self.flag(DEC_FLAG, true)
    }

    /// CLI: IRQ-disable is cleared.
    pub open spec fn cli(self) -> Machine {
        self.flag(IRQ_FLAG, false)
    }

    /// SEI: IRQ-disable is set.
    pub open spec fn sei(self) -> Machine {
        self.flag(IRQ_FLAG, true)
    }

    /// CLV: Overflow is cleared.
    pub open spec fn clv(self) -> Machine {
        self.flag(OVERFLOW_FLAG, false)
    }

    /// REP: the status bits named by the byte operand are cleared.
    pub open spec fn rep(self, am: AddressingMode) -> (Machine, Result<(), Fault>) {
        let (m, r) = self.read8(am);
        match r {
            Err(e) => (m, Err(e)),
            Ok(mask) => (m.set_p(self.p.0 & !mask), Ok(())),
        }
    }

    /// SEP: the status bits named by the byte operand are set.
    pub open spec fn sep(self, am: AddressingMode) -> (Machine, Result<(), Fault>) {
        let (m, r) = self.read8(am);
        match r {
            Err(e) => (m, Err(e)),
            Ok(mask) => (m.set_p(self.p.0 | mask), Ok(())),
        }
    }

    /// XCE: Carry and the emulation flag change places.
    pub open spec fn xce(self) -> Machine {
        self.flag(CARRY_FLAG, self.emulation).set_emulation(self.p.has(CARRY_FLAG))
    }

    /// STP: the core stops for good.
    pub open spec fn stp(self) -> Machine {
        Machine { run_status: RunStatus::Stopped, ..self }
    }

    /// WAI: the core waits for an interrupt.
    pub open spec fn wai(self) -> Machine {
        Machine { run_status: RunStatus::Waiting, ..self }
    }
}

impl W65C816 {
    /// BRA: always taken.
    pub fn bra(&mut self, am: AddressingMode) -> (r: Result<(), Fault>)
        requires
            old(self)@.wf(),
        ensures
            final(self)@.wf(),
            (final(self)@, r) == old(self)@.bra(am),
    {
        let a: (u8, u16) = am.address(self)?;
        self.branch(a);
        Ok(())
    }

    /// BEQ: taken iff Zero is set.
    pub fn beq(&mut self, am: AddressingMode) -> (r: Result<(), Fault>)
        requires
            old(self)@.wf(),
        ensures
            final(self)@.wf(),
            (final(self)@, r) == old(self)@.beq(am),
    {
        let a: (u8, u16) = am.address(self)?;
        if self.p.zero() {
            self.branch(a);
        }
        Ok(())
    }

    /// BMI: taken iff Negative is set.
    pub fn bmi(&mut self, am: AddressingMode) -> (r: Result<(), Fault>)
        requires
            old(self)@.wf(),
        ensures
            final(self)@.wf(),
            (final(self)@, r) == old(self)@.bmi(am),
    {
        let a: (u8, u16) = am.address(self)?;
        if self.p.negative() {
            self.branch(a);
        }
        Ok(())
    }

    /// BNE: taken iff Zero is clear.
    pub fn bne(&mut self, am: AddressingMode) -> (r: Result<(), Fault>)
        requires
            old(self)@.wf(),
        ensures
            final(self)@.wf(),
            (final(self)@, r) == old(self)@.bne(am),
    {
        let a: (u8, u16) = am.address(self)?;
        if !self.p.zero() {
            self.branch(a);
        }
        Ok(())
    }

    /// JMP: the program counter takes the operand's address; the program
    /// bank stays.
    pub fn jmp(&mut self, am: AddressingMode) -> (r: Result<(), Fault>)
        requires
            old(self)@.wf(),
        ensures
            final(self)@.wf(),
            (final(self)@, r) == old(self)@.jmp(am),
    {
        let (_, addr) = am.address(self)?;
        self.pc = addr;
        Ok(())
    }

    /// JML: program bank and program counter take the operand's location.
    pub fn jml(&mut self, am: AddressingMode) -> (r: Result<(), Fault>)
        requires
            old(self)@.wf(),
        ensures
            final(self)@.wf(),
            (final(self)@, r) == old(self)@.jml(am),
    {
        let a: (u8, u16) = am.address(self)?;
        self.branch(a);
        Ok(())
    }

    /// JSR: the address of the last byte of the call instruction is pushed,
    /// high byte first, then the program counter takes the operand's address.
    pub fn jsr(&mut self, am: AddressingMode) -> (r: Result<(), Fault>)
        requires
            old(self)@.wf(),
        ensures
            final(self)@.wf(),
            (final(self)@, r) == old(self)@.jsr(am),
    {
        let pc: u16 = self.pc.wrapping_sub(1);
        self.pushb(high_byte(pc))?;
        self.pushb(low_byte(pc))?;
        let (_, addr) = am.address(self)?;
        self.pc = addr;
        Ok(())
    }

    /// JSL: the program bank is pushed, then the address of the last byte
    /// of the call instruction, then control moves to the operand's location.
    pub fn jsl(&mut self, am: AddressingMode) -> (r: Result<(), Fault>)
        requires
            old(self)@.wf(),
        ensures
            final(self)@.wf(),
            (final(self)@, r) == old(self)@.jsl(am),
    {
        let pbr: u8 = self.pbr;
        self.pushb(pbr)?;
        let pc: u16 = self.pc.wrapping_sub(1);
        self.pushb(high_byte(pc))?;
        self.pushb(low_byte(pc))?;
        let (pbr, pc) = am.address(self)?;
        self.pbr = pbr;
        self.pc = pc;
        Ok(())
    }

    /// RTS: the program counter is pulled and moved one past the pulled
    /// address.
    pub fn rts(&mut self) -> (r: Result<(), Fault>)
        requires
            old(self)@.wf(),
        ensures
            final(self)@.wf(),
            (final(self)@, r) == old(self)@.rts(),
    {
        let pcl: u8 = self.popb()?;
        let pch: u8 = self.popb()?;
        let pc: u16 = make_word(pch, pcl);
        self.pc = pc.wrapping_add(1);
        Ok(())
    }

    /// RTL: as RTS, and the program bank is pulled after the address.
    pub fn rtl(&mut self) -> (r: Result<(), Fault>)
        requires
            old(self)@.wf(),
        ensures
            final(self)@.wf(),
            (final(self)@, r) == old(self)@.rtl(),
    {
        let pcl: u8 = self.popb()?;
        let pch: u8 = self.popb()?;
        let pbr: u8 = self.popb()?;
        let pc: u16 = make_word(pch, pcl);
        self.pbr = pbr;
        self.pc = pc.wrapping_add(1);
        Ok(())
    }

    /// CLC: Carry is cleared.
    pub fn clc(&mut self)
        ensures
            final(self)@ == old(self)@.clc(),
    {
        self.p.set_carry(false);
    }

    /// SEC: Carry is set.
    pub fn sec(&mut self)
        ensures
            final(self)@ == old(self)@.sec(),
    {
        self.p.set_carry(true);
    }

    /// CLD: Decimal is cleared.
    pub fn cld(&mut self)
        ensures
            final(self)@ == old(self)@.cld(),
    {
        self.p.set_decimal(false);
    }

    /// SED: Decimal is set.
    pub fn sed(&mut self)
        ensures
            final(self)@ == old(self)@.sed(),
    {
        self.p.set_decimal(true);
    }

    /// CLI: IRQ-disable is cleared.
    pub fn cli(&mut self)
        ensures
            final(self)@ == old(self)@.cli(),
    {
        self.p.set_interrupt(false);
    }

    /// SEI: IRQ-disable is set.
    pub fn sei(&mut self)
        ensures
            final(self)@ == old(self)@.sei(),
    {
        self.p.set_interrupt(true);
    }

    /// CLV: Overflow is cleared.
    pub fn clv(&mut self)
        ensures
            final(self)@ == old(self)@.clv(),
    {
        self.p.set_overflow(false);
    }

    /// REP: the status bits named by the byte operand are cleared.
    pub fn rep(&mut self, am: AddressingMode) -> (r: Result<(), Fault>)
        requires
            old(self)@.wf(),
        ensures
            final(self)@.wf(),
            (final(self)@, r) == old(self)@.rep(am),
    {
        let before: u8 = self.p.0;
        let mask: u8 = am.loadb(self)?;
        self.set_p(before & !mask);
        Ok(())
    }

    /// SEP: the status bits named by the byte operand are set.
    pub fn sep(&mut self, am: AddressingMode) -> (r: Result<(), Fault>)
        requires
            old(self)@.wf(),
        ensures
            final(self)@.wf(),
            (final(self)@, r) == old(self)@.sep(am),
    {
        let before: u8 = self.p.0;
        let mask: u8 = am.loadb(self)?;
        self.set_p(before | mask);
        Ok(())
    }

    /// XCE: Carry and the emulation flag change places.
    pub fn xce(&mut self)
        ensures
            final(self)@ == old(self)@.xce(),
    {
        let carry: bool = self.p.carry();
        let e: bool = self.emulation;
        self.p.set_carry(e);
        self.set_emulation(carry);
    }

    /// STP: the core stops for good.
    pub fn stp(&mut self)
        ensures
            final(self)@ == old(self)@.stp(),
    {
        self.run_status = RunStatus::Stopped;
    }

    /// WAI: the core waits for an interrupt.
    pub fn wai(&mut self)
        ensures
            final(self)@ == old(self)@.wai(),
    {
        self.run_status = RunStatus::Waiting;
    }
}
} // verus!
